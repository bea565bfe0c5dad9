//! Identity tokens and the per-plugin metadata record.

use vstd::prelude::*;

verus! {

/// A registered type: a display name together with a stable identity token.
/// Two values stand for the same type exactly when their tokens agree; the
/// display name never takes part in comparisons.
#[derive(Debug)]
pub struct TypeInfo {
    /// Human-readable name of the type.
    pub name: String,
    /// Stable identity token of the type.
    pub id: u64,
}

/// Specification-level image of a `TypeInfo`.
#[verifier::ext_equal]
pub struct TypeInfoV {
    pub name: Seq<char>,
    pub id: u64,
}

impl DeepView for TypeInfo {
    type V = TypeInfoV;

    open spec fn deep_view(&self) -> TypeInfoV {
        TypeInfoV { name: self.name@, id: self.id }
    }
}

impl TypeInfo {
    /// Wrap a display name and an identity token.
    pub fn new(name: String, id: u64) -> (r: TypeInfo)
        ensures
            r.deep_view() == (TypeInfoV { name: name@, id: id }),
    {
        TypeInfo { name, id }
    }

    /// The identity token.
    pub fn type_id(&self) -> (r: u64)
        ensures
            r == self.id,
    {
        self.id
    }
}

impl PartialEq for TypeInfo {
    fn eq(&self, other: &Self) -> (r: bool) {
        self.id == other.id
    }
}

impl vstd::std_specs::cmp::PartialEqSpecImpl for TypeInfo {
    open spec fn obeys_eq_spec() -> bool {
        true
    }

    open spec fn eq_spec(&self, other: &TypeInfo) -> bool {
        self.id == other.id
    }
}

impl Eq for TypeInfo {}

/// A copy of a `TypeInfo` with the same name and token.
pub fn copy_type_info(t: &TypeInfo) -> (r: TypeInfo)
    ensures
        r.deep_view() == t.deep_view(),
{
    TypeInfo { name: t.name.clone(), id: t.id }
}

/// A copy of a type list with the same contents.
pub fn copy_type_list(v: &Vec<TypeInfo>) -> (r: Vec<TypeInfo>)
    ensures
        r.deep_view() == v.deep_view(),
{
    let mut out: Vec<TypeInfo> = Vec::new();
    let mut i: usize = 0;
    while i < v.len()
        invariant
            i <= v.len(),
            out@.len() == i,
            forall|j: int| 0 <= j < i ==> out.deep_view()[j] == v.deep_view()[j],
        decreases v.len() - i,
    {
        out.push(copy_type_info(&v[i]));
        i = i + 1;
    }
    assert(out.deep_view() =~= v.deep_view());
    out
}

/// Names of the systems attached to each schedule, and how many systems the
/// state-entry and state-exit hooks carry in all.
#[derive(Debug)]
pub struct PluginSystems {
    /// Names of startup systems.
    pub startup: Vec<String>,
    /// Names of per-frame update systems.
    pub update: Vec<String>,
    /// Names of fixed-timestep systems.
    pub fixed_update: Vec<String>,
    /// Number of systems attached to state-entry hooks.
    pub on_enter_count: usize,
    /// Number of systems attached to state-exit hooks.
    pub on_exit_count: usize,
}

/// Specification-level image of `PluginSystems`.
#[verifier::ext_equal]
pub struct PluginSystemsV {
    pub startup: Seq<Seq<char>>,
    pub update: Seq<Seq<char>>,
    pub fixed_update: Seq<Seq<char>>,
    pub on_enter_count: nat,
    pub on_exit_count: nat,
}

impl DeepView for PluginSystems {
    type V = PluginSystemsV;

    open spec fn deep_view(&self) -> PluginSystemsV {
        PluginSystemsV {
            startup: self.startup.deep_view(),
            update: self.update.deep_view(),
            fixed_update: self.fixed_update.deep_view(),
            on_enter_count: self.on_enter_count as nat,
            on_exit_count: self.on_exit_count as nat,
        }
    }
}

/// Total number of systems a `PluginSystemsV` records, as a mathematical sum.
pub open spec fn spec_total_systems(s: PluginSystemsV) -> int {
    s.startup.len() + s.update.len() + s.fixed_update.len() + s.on_enter_count as int
        + s.on_exit_count as int
}

/// The record a plugin's configuration folds into: name, optional metadata,
/// declared type lists per category, dependency names and system names.
/// Every list preserves first-seen declaration order; repeated declarations
/// of one category concatenate.
#[derive(Debug)]
pub struct PluginMetadata {
    /// Plugin name.
    pub name: String,
    /// Version from the meta block, if given.
    pub version: Option<String>,
    /// Description from the meta block, if given.
    pub description: Option<String>,
    /// Resources the plugin registers: default-constructed declarations
    /// and by-value insertions, in declaration order.
    pub resources: Vec<TypeInfo>,
    /// Message channel types.
    pub messages: Vec<TypeInfo>,
    /// Top-level state machines.
    pub states: Vec<TypeInfo>,
    /// Hierarchical sub-states.
    pub sub_states: Vec<TypeInfo>,
    /// Types registered with the reflection collaborator.
    pub reflected_types: Vec<TypeInfo>,
    /// Names of nested sub-plugins.
    pub sub_plugins: Vec<String>,
    /// Names of required predecessor plugins.
    pub dependencies: Vec<String>,
    /// System names and hook counts.
    pub systems: PluginSystems,
}

/// Specification-level image of `PluginMetadata`.
#[verifier::ext_equal]
pub struct PluginMetadataV {
    pub name: Seq<char>,
    pub version: Option<Seq<char>>,
    pub description: Option<Seq<char>>,
    pub resources: Seq<TypeInfoV>,
    pub messages: Seq<TypeInfoV>,
    pub states: Seq<TypeInfoV>,
    pub sub_states: Seq<TypeInfoV>,
    pub reflected_types: Seq<TypeInfoV>,
    pub sub_plugins: Seq<Seq<char>>,
    pub dependencies: Seq<Seq<char>>,
    pub systems: PluginSystemsV,
}

impl DeepView for PluginMetadata {
    type V = PluginMetadataV;

    open spec fn deep_view(&self) -> PluginMetadataV {
        PluginMetadataV {
            name: self.name@,
            version: self.version.deep_view(),
            description: self.description.deep_view(),
            resources: self.resources.deep_view(),
            messages: self.messages.deep_view(),
            states: self.states.deep_view(),
            sub_states: self.sub_states.deep_view(),
            reflected_types: self.reflected_types.deep_view(),
            sub_plugins: self.sub_plugins.deep_view(),
            dependencies: self.dependencies.deep_view(),
            systems: self.systems.deep_view(),
        }
    }
}

/// The metadata record with the given name and nothing declared.
pub open spec fn spec_empty_metadata(name: Seq<char>) -> PluginMetadataV {
    PluginMetadataV {
        name: name,
        version: None,
        description: None,
        resources: Seq::empty(),
        messages: Seq::empty(),
        states: Seq::empty(),
        sub_states: Seq::empty(),
        reflected_types: Seq::empty(),
        sub_plugins: Seq::empty(),
        dependencies: Seq::empty(),
        systems: PluginSystemsV {
            startup: Seq::empty(),
            update: Seq::empty(),
            fixed_update: Seq::empty(),
            on_enter_count: 0,
            on_exit_count: 0,
        },
    }
}

/// Whether a type list holds the given identity token.
pub open spec fn spec_has_id(list: Seq<TypeInfoV>, id: u64) -> bool {
    exists|i: int| 0 <= i < list.len() && list[i].id == id
}

/// Linear scan for an identity token in a type list.
fn scan_for_id(list: &Vec<TypeInfo>, id: u64) -> (r: bool)
    ensures
        r == spec_has_id(list.deep_view(), id),
{
    let mut i: usize = 0;
    while i < list.len()
        invariant
            i <= list.len(),
            forall|j: int| 0 <= j < i ==> list.deep_view()[j].id != id,
        decreases list.len() - i,
    {
        if list[i].id == id {
            assert(list.deep_view()[i as int].id == id);
            return true;
        }
        i = i + 1;
    }
    false
}

impl PluginMetadata {
    /// A metadata record for a plugin that declares nothing.
    pub fn empty(name: String) -> (r: PluginMetadata)
        ensures
            r.deep_view() == spec_empty_metadata(name@),
    {
        let r = PluginMetadata {
            name,
            version: None,
            description: None,
            resources: Vec::new(),
            messages: Vec::new(),
            states: Vec::new(),
            sub_states: Vec::new(),
            reflected_types: Vec::new(),
            sub_plugins: Vec::new(),
            dependencies: Vec::new(),
            systems: PluginSystems {
                startup: Vec::new(),
                update: Vec::new(),
                fixed_update: Vec::new(),
                on_enter_count: 0,
                on_exit_count: 0,
            },
        };
        assert(r.deep_view() =~= spec_empty_metadata(r.name@));
        r
    }

    /// Whether this plugin declares the resource with the given token.
    pub fn has_resource(&self, id: u64) -> (r: bool)
        ensures
            r == spec_has_id(self.deep_view().resources, id),
    {
        scan_for_id(&self.resources, id)
    }

    /// Whether this plugin declares the message type with the given token.
    pub fn has_message(&self, id: u64) -> (r: bool)
        ensures
            r == spec_has_id(self.deep_view().messages, id),
    {
        scan_for_id(&self.messages, id)
    }

    /// Whether this plugin declares the state type with the given token.
    pub fn has_state(&self, id: u64) -> (r: bool)
        ensures
            r == spec_has_id(self.deep_view().states, id),
    {
        scan_for_id(&self.states, id)
    }

    /// Total number of systems this plugin registers, over all schedules and
    /// state hooks.
    pub fn total_systems(&self) -> (r: usize)
        requires
            spec_total_systems(self.deep_view().systems) <= usize::MAX,
        ensures
            r == spec_total_systems(self.deep_view().systems),
    {
        self.systems.startup.len() + self.systems.update.len()
            + self.systems.fixed_update.len() + self.systems.on_enter_count
            + self.systems.on_exit_count
    }

    /// Whether this plugin names the given plugin among its dependencies.
    pub fn depends_on(&self, plugin_name: &str) -> (r: bool)
        ensures
            r == self.deep_view().dependencies.contains(plugin_name@),
    {
        let mut i: usize = 0;
        while i < self.dependencies.len()
            invariant
                i <= self.dependencies.len(),
                forall|j: int| 0 <= j < i ==> self.deep_view().dependencies[j] != plugin_name@,
            decreases self.dependencies.len() - i,
        {
            if crate::text::str_eq(self.dependencies[i].as_str(), plugin_name) {
                assert(self.deep_view().dependencies[i as int] == plugin_name@);
                return true;
            }
            i = i + 1;
        }
        false
    }
}

/// A copy of a metadata record with the same contents.
pub fn copy_metadata(m: &PluginMetadata) -> (r: PluginMetadata)
    ensures
        r.deep_view() == m.deep_view(),
{
    let r = PluginMetadata {
        name: m.name.clone(),
        version: match &m.version {
            Some(v) => Some(v.clone()),
            None => None,
        },
        description: match &m.description {
            Some(d) => Some(d.clone()),
            None => None,
        },
        resources: copy_type_list(&m.resources),
        messages: copy_type_list(&m.messages),
        states: copy_type_list(&m.states),
        sub_states: copy_type_list(&m.sub_states),
        reflected_types: copy_type_list(&m.reflected_types),
        sub_plugins: crate::text::copy_strings(&m.sub_plugins),
        dependencies: crate::text::copy_strings(&m.dependencies),
        systems: PluginSystems {
            startup: crate::text::copy_strings(&m.systems.startup),
            update: crate::text::copy_strings(&m.systems.update),
            fixed_update: crate::text::copy_strings(&m.systems.fixed_update),
            on_enter_count: m.systems.on_enter_count,
            on_exit_count: m.systems.on_exit_count,
        },
    };
    assert(r.deep_view() =~= m.deep_view());
    r
}

} // verus!
