//! The runtime plugin registry: installed plugins' metadata, keyed by
//! identity token, in registration order.
//!
//! Registration is idempotent: a second registration of the same identity
//! changes nothing, neither the stored metadata nor the order. Every
//! query is read-only. The registry is meant to be owned by a
//! single-threaded host setup phase; it does no locking of its own.

use vstd::prelude::*;

use crate::metadata::PluginMetadata;
use crate::metadata::PluginMetadataV;
use crate::metadata::TypeInfoV;
use crate::metadata::copy_metadata;
use crate::metadata::spec_has_id;
use crate::metadata::spec_total_systems;
use crate::text::str_eq;

verus! {

/// The registry: identity-keyed metadata records, in registration order.
#[derive(Debug)]
pub struct PluginRegistry {
    /// The registered plugins: identity token and metadata, oldest first.
    pub plugins: Vec<(u64, PluginMetadata)>,
}

impl PluginRegistry {
    /// Well-formedness: no identity token registered twice.
    pub open spec fn wf(&self) -> bool {
        forall|i: int, j: int|
            0 <= i < j < self.plugins.deep_view().len() ==> (
            #[trigger] self.plugins.deep_view()[i]).0 != (
            #[trigger] self.plugins.deep_view()[j]).0
    }
}

/// Whether a registration list holds the given identity.
pub open spec fn spec_registered(s: Seq<(u64, PluginMetadataV)>, id: u64) -> bool {
    exists|i: int| 0 <= i < s.len() && (#[trigger] s[i]).0 == id
}

/// The effect of registering an identity with its metadata: nothing if
/// the identity is already present, an appended entry otherwise.
pub open spec fn spec_register(
    s: Seq<(u64, PluginMetadataV)>,
    id: u64,
    m: PluginMetadataV,
) -> Seq<(u64, PluginMetadataV)> {
    if spec_registered(s, id) {
        s
    } else {
        s.push((id, m))
    }
}

/// The metadata stored under an identity, if any.
pub open spec fn spec_lookup(s: Seq<(u64, PluginMetadataV)>, id: u64) -> Option<
    PluginMetadataV,
>
    decreases s.len(),
{
    if s.len() == 0 {
        None
    } else if s[0].0 == id {
        Some(s[0].1)
    } else {
        spec_lookup(s.drop_first(), id)
    }
}

/// The first record whose plugin name is the given one, if any.
pub open spec fn spec_find_by_name(s: Seq<(u64, PluginMetadataV)>, name: Seq<char>) -> Option<
    PluginMetadataV,
>
    decreases s.len(),
{
    if s.len() == 0 {
        None
    } else if s[0].1.name == name {
        Some(s[0].1)
    } else {
        spec_find_by_name(s.drop_first(), name)
    }
}

/// The declared type list one query category reads from a record.
pub open spec fn spec_query_list(m: PluginMetadataV, cat: u8) -> Seq<TypeInfoV> {
    if cat == 0 {
        m.resources
    } else if cat == 1 {
        m.messages
    } else {
        m.states
    }
}

/// The names of the registered plugins whose record declares the given
/// token in the given category, in registration order.
pub open spec fn spec_plugins_with(
    s: Seq<(u64, PluginMetadataV)>,
    id: u64,
    cat: u8,
) -> Seq<Seq<char>>
    decreases s.len(),
{
    if s.len() == 0 {
        Seq::empty()
    } else {
        spec_plugins_with(s.drop_last(), id, cat) + (if spec_has_id(
            spec_query_list(s.last().1, cat),
            id,
        ) {
            seq![s.last().1.name]
        } else {
            Seq::empty()
        })
    }
}

/// The number of resources declared over all registered plugins.
pub open spec fn spec_total_resources(s: Seq<(u64, PluginMetadataV)>) -> nat
    decreases s.len(),
{
    if s.len() == 0 {
        0
    } else {
        spec_total_resources(s.drop_last()) + s.last().1.resources.len()
    }
}

/// The number of systems declared over all registered plugins.
pub open spec fn spec_registry_systems(s: Seq<(u64, PluginMetadataV)>) -> int
    decreases s.len(),
{
    if s.len() == 0 {
        0
    } else {
        spec_registry_systems(s.drop_last()) + spec_total_systems(s.last().1.systems)
    }
}

/// A prefix never counts more resources or systems than the whole.
proof fn lemma_totals_prefix(s: Seq<(u64, PluginMetadataV)>, n: int)
    requires
        0 <= n <= s.len(),
    ensures
        spec_total_resources(s.take(n)) <= spec_total_resources(s),
        spec_registry_systems(s.take(n)) <= spec_registry_systems(s),
    decreases s.len() - n,
{
    if n < s.len() {
        assert(s.take(n + 1).drop_last() =~= s.take(n));
        lemma_totals_prefix(s, n + 1);
    } else {
        assert(s.take(n) =~= s);
    }
}

impl PluginRegistry {
    /// A fresh, empty registry.
    pub fn new() -> (r: PluginRegistry)
        ensures
            r.plugins.deep_view() =~= Seq::<(u64, PluginMetadataV)>::empty(),
            r.wf(),
    {
        PluginRegistry { plugins: Vec::new() }
    }

    /// Whether the given identity is registered.
    pub fn is_registered(&self, id: u64) -> (r: bool)
        ensures
            r == spec_registered(self.plugins.deep_view(), id),
    {
        let mut i: usize = 0;
        while i < self.plugins.len()
            invariant
                i <= self.plugins.len(),
                forall|j: int|
                    0 <= j < i ==> (#[trigger] self.plugins.deep_view()[j]).0 != id,
            decreases self.plugins.len() - i,
        {
            if self.plugins[i].0 == id {
                assert(self.plugins.deep_view()[i as int].0 == id);
                return true;
            }
            i = i + 1;
        }
        false
    }

    /// Registration of a plugin's metadata under its identity. Registering
    /// an identity a second time changes nothing: the stored record and
    /// the registration order stay as they were.
    pub fn register(&mut self, id: u64, meta: PluginMetadata)
        requires
            old(self).wf(),
        ensures
            final(self).wf(),
            final(self).plugins.deep_view() == spec_register(
                old(self).plugins.deep_view(),
                id,
                meta.deep_view(),
            ),
    {
        if !self.is_registered(id) {
            self.plugins.push((id, meta));
            assert(self.plugins.deep_view() =~= old(self).plugins.deep_view().push(
                (id, meta.deep_view()),
            ));
        }
    }

    /// The metadata registered under an identity, if any.
    pub fn get(&self, id: u64) -> (r: Option<&PluginMetadata>)
        ensures
            (match r {
                Some(m) => spec_lookup(self.plugins.deep_view(), id) == Some(m.deep_view()),
                None => spec_lookup(self.plugins.deep_view(), id) is None,
            }),
    {
        let ghost s = self.plugins.deep_view();
        let mut i: usize = 0;
        assert(s.skip(0) =~= s);
        while i < self.plugins.len()
            invariant
                i <= self.plugins.len(),
                s == self.plugins.deep_view(),
                spec_lookup(s, id) == spec_lookup(s.skip(i as int), id),
            decreases self.plugins.len() - i,
        {
            let ghost rest = s.skip(i as int);
            assert(rest[0] == s[i as int]);
            assert(rest.drop_first() =~= s.skip(i + 1));
            if self.plugins[i].0 == id {
                return Some(&self.plugins[i].1);
            }
            i = i + 1;
        }
        assert(s.skip(self.plugins.len() as int) =~= Seq::<(u64, PluginMetadataV)>::empty());
        None
    }

    /// The number of registered plugins.
    pub fn len(&self) -> (r: usize)
        ensures
            r == self.plugins.deep_view().len(),
    {
        self.plugins.len()
    }

    /// Whether no plugin is registered.
    pub fn is_empty(&self) -> (r: bool)
        ensures
            r == (self.plugins.deep_view().len() == 0),
    {
        self.plugins.is_empty()
    }

    /// The registered records, in registration order.
    pub fn list_all(&self) -> (r: Vec<PluginMetadata>)
        ensures
            r.deep_view() == self.plugins.deep_view().map_values(
                |p: (u64, PluginMetadataV)| p.1,
            ),
    {
        let mut out: Vec<PluginMetadata> = Vec::new();
        let mut i: usize = 0;
        while i < self.plugins.len()
            invariant
                i <= self.plugins.len(),
                out@.len() == i,
                forall|j: int|
                    0 <= j < i ==> out.deep_view()[j] == (
                    #[trigger] self.plugins.deep_view()[j]).1,
            decreases self.plugins.len() - i,
        {
            out.push(copy_metadata(&self.plugins[i].1));
            i = i + 1;
        }
        assert(out.deep_view() =~= self.plugins.deep_view().map_values(
            |p: (u64, PluginMetadataV)| p.1,
        ));
        out
    }

    /// The names of the registered plugins, in registration order.
    pub fn plugin_names(&self) -> (r: Vec<String>)
        ensures
            r.deep_view() == self.plugins.deep_view().map_values(
                |p: (u64, PluginMetadataV)| p.1.name,
            ),
    {
        let mut out: Vec<String> = Vec::new();
        let mut i: usize = 0;
        while i < self.plugins.len()
            invariant
                i <= self.plugins.len(),
                out@.len() == i,
                forall|j: int|
                    0 <= j < i ==> out.deep_view()[j] == (
                    #[trigger] self.plugins.deep_view()[j]).1.name,
            decreases self.plugins.len() - i,
        {
            out.push(self.plugins[i].1.name.clone());
            i = i + 1;
        }
        assert(out.deep_view() =~= self.plugins.deep_view().map_values(
            |p: (u64, PluginMetadataV)| p.1.name,
        ));
        out
    }

    /// The names of plugins whose record declares the given token in the
    /// given category.
    fn plugins_with(&self, id: u64, cat: u8) -> (r: Vec<String>)
        ensures
            r.deep_view() == spec_plugins_with(self.plugins.deep_view(), id, cat),
    {
        let ghost s = self.plugins.deep_view();
        let mut out: Vec<String> = Vec::new();
        let mut i: usize = 0;
        assert(s.take(0) =~= Seq::<(u64, PluginMetadataV)>::empty());
        while i < self.plugins.len()
            invariant
                i <= self.plugins.len(),
                s == self.plugins.deep_view(),
                out.deep_view() == spec_plugins_with(s.take(i as int), id, cat),
            decreases self.plugins.len() - i,
        {
            let ghost cur = s.take(i + 1);
            assert(cur.drop_last() =~= s.take(i as int));
            assert(cur.last() == s[i as int]);
            let m = &self.plugins[i].1;
            let hit = if cat == 0 {
                m.has_resource(id)
            } else if cat == 1 {
                m.has_message(id)
            } else {
                m.has_state(id)
            };
            if hit {
                out.push(m.name.clone());
            }
            assert(out.deep_view() =~= spec_plugins_with(cur, id, cat));
            i = i + 1;
        }
        assert(s.take(self.plugins.len() as int) =~= s);
        out
    }

    /// The names of plugins that declare the resource with the given
    /// token, in registration order.
    pub fn plugins_with_resource(&self, id: u64) -> (r: Vec<String>)
        ensures
            r.deep_view() == spec_plugins_with(self.plugins.deep_view(), id, 0),
    {
        self.plugins_with(id, 0)
    }

    /// The names of plugins that declare the message type with the given
    /// token, in registration order.
    pub fn plugins_with_message(&self, id: u64) -> (r: Vec<String>)
        ensures
            r.deep_view() == spec_plugins_with(self.plugins.deep_view(), id, 1),
    {
        self.plugins_with(id, 1)
    }

    /// The names of plugins that declare the state type with the given
    /// token, in registration order.
    pub fn plugins_with_state(&self, id: u64) -> (r: Vec<String>)
        ensures
            r.deep_view() == spec_plugins_with(self.plugins.deep_view(), id, 2),
    {
        self.plugins_with(id, 2)
    }

    /// The number of resources declared over all registered plugins.
    pub fn total_resources(&self) -> (r: usize)
        requires
            spec_total_resources(self.plugins.deep_view()) <= usize::MAX,
        ensures
            r == spec_total_resources(self.plugins.deep_view()),
    {
        let ghost s = self.plugins.deep_view();
        let mut acc: usize = 0;
        let mut i: usize = 0;
        assert(s.take(0) =~= Seq::<(u64, PluginMetadataV)>::empty());
        while i < self.plugins.len()
            invariant
                i <= self.plugins.len(),
                s == self.plugins.deep_view(),
                spec_total_resources(s) <= usize::MAX,
                acc == spec_total_resources(s.take(i as int)),
            decreases self.plugins.len() - i,
        {
            let ghost cur = s.take(i + 1);
            assert(cur.drop_last() =~= s.take(i as int));
            assert(cur.last() == s[i as int]);
            proof {
                lemma_totals_prefix(s, i + 1);
            }
            acc = acc + self.plugins[i].1.resources.len();
            i = i + 1;
        }
        assert(s.take(self.plugins.len() as int) =~= s);
        acc
    }

    /// The number of systems declared over all registered plugins.
    pub fn total_systems(&self) -> (r: usize)
        requires
            spec_registry_systems(self.plugins.deep_view()) <= usize::MAX,
        ensures
            r == spec_registry_systems(self.plugins.deep_view()),
    {
        let ghost s = self.plugins.deep_view();
        let mut acc: usize = 0;
        let mut i: usize = 0;
        assert(s.take(0) =~= Seq::<(u64, PluginMetadataV)>::empty());
        while i < self.plugins.len()
            invariant
                i <= self.plugins.len(),
                s == self.plugins.deep_view(),
                spec_registry_systems(s) <= usize::MAX,
                acc == spec_registry_systems(s.take(i as int)),
            decreases self.plugins.len() - i,
        {
            let ghost cur = s.take(i + 1);
            assert(cur.drop_last() =~= s.take(i as int));
            assert(cur.last() == s[i as int]);
            proof {
                lemma_totals_prefix(s, i + 1);
            }
            let m = &self.plugins[i].1;
            acc = acc + m.systems.startup.len() + m.systems.update.len()
                + m.systems.fixed_update.len() + m.systems.on_enter_count
                + m.systems.on_exit_count;
            i = i + 1;
        }
        assert(s.take(self.plugins.len() as int) =~= s);
        acc
    }

    /// The first registered record with the given plugin name, if any.
    pub fn find_by_name(&self, name: &str) -> (r: Option<&PluginMetadata>)
        ensures
            (match r {
                Some(m) => spec_find_by_name(self.plugins.deep_view(), name@) == Some(
                    m.deep_view(),
                ),
                None => spec_find_by_name(self.plugins.deep_view(), name@) is None,
            }),
    {
        let ghost s = self.plugins.deep_view();
        let mut i: usize = 0;
        assert(s.skip(0) =~= s);
        while i < self.plugins.len()
            invariant
                i <= self.plugins.len(),
                s == self.plugins.deep_view(),
                spec_find_by_name(s, name@) == spec_find_by_name(s.skip(i as int), name@),
            decreases self.plugins.len() - i,
        {
            let ghost rest = s.skip(i as int);
            assert(rest[0] == s[i as int]);
            assert(rest.drop_first() =~= s.skip(i + 1));
            if str_eq(self.plugins[i].1.name.as_str(), name) {
                return Some(&self.plugins[i].1);
            }
            i = i + 1;
        }
        assert(s.skip(self.plugins.len() as int) =~= Seq::<(u64, PluginMetadataV)>::empty());
        None
    }
}

} // verus!
