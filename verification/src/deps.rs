//! The dependency verifier: the runtime check that every required
//! predecessor plugin is already installed, stopping at the first missing
//! one, and the structured error it reports.

use vstd::prelude::*;

use vstd::string::StringExecFns;

use crate::builder::Builder;
use crate::metadata::TypeInfo;
use crate::metadata::TypeInfoV;

verus! {

/// The error reported when a required predecessor plugin is missing.
#[derive(Debug)]
pub struct MissingPluginError {
    /// Name of the plugin that requires the dependency.
    pub required_by: String,
    /// Name of the missing plugin.
    pub missing: String,
}

/// Specification-level image of a `MissingPluginError`.
#[verifier::ext_equal]
pub struct MissingPluginErrorV {
    pub required_by: Seq<char>,
    pub missing: Seq<char>,
}

impl DeepView for MissingPluginError {
    type V = MissingPluginErrorV;

    open spec fn deep_view(&self) -> MissingPluginErrorV {
        MissingPluginErrorV { required_by: self.required_by@, missing: self.missing@ }
    }
}

/// The rendered text of a missing-dependency error: it names the dependent
/// plugin, the missing plugin, and the remediation.
pub open spec fn spec_missing_message(required_by: Seq<char>, missing: Seq<char>) -> Seq<
    char,
> {
    "Plugin '"@ + required_by + "' requires '"@ + missing
        + "' to be added first. Add '"@ + missing + "' before '"@ + required_by
        + "' in your app.add_plugins() call."@
}

impl MissingPluginError {
    /// The rendered error text.
    pub fn message(&self) -> (r: String)
        ensures
            r@ == spec_missing_message(self.required_by@, self.missing@),
    {
        let r = String::from_str("Plugin '").concat(self.required_by.as_str()).concat(
            "' requires '",
        ).concat(self.missing.as_str()).concat("' to be added first. Add '").concat(
            self.missing.as_str(),
        ).concat("' before '").concat(self.required_by.as_str()).concat(
            "' in your app.add_plugins() call.",
        );
        assert(r@ =~= spec_missing_message(self.required_by@, self.missing@));
        r
    }
}

/// The first required predecessor that is not installed, walking the
/// declared order; nothing if every one is installed.
pub open spec fn spec_first_missing(installed: Seq<u64>, deps: Seq<TypeInfoV>) -> Option<
    TypeInfoV,
>
    decreases deps.len(),
{
    if deps.len() == 0 {
        None
    } else if !installed.contains(deps[0].id) {
        Some(deps[0])
    } else {
        spec_first_missing(installed, deps.drop_first())
    }
}

/// Verification that every required predecessor, in declared order, is
/// already installed in the builder. The check short-circuits: on the
/// first missing identity it reports that one — later ones are not
/// examined — and an empty requirement list always succeeds.
pub fn verify_dependencies(b: &Builder, required_by: &str, deps: &Vec<TypeInfo>) -> (r:
    Result<(), MissingPluginError>)
    ensures
        (match spec_first_missing(b.deep_view().installed, deps.deep_view()) {
            None => r matches Ok(_),
            Some(d) => r matches Err(e) && e.deep_view() == (MissingPluginErrorV {
                required_by: required_by@,
                missing: d.name,
            }),
        }),
{
    let ghost installed = b.deep_view().installed;
    let mut i: usize = 0;
    assert(deps.deep_view().skip(0) =~= deps.deep_view());
    while i < deps.len()
        invariant
            i <= deps.len(),
            spec_first_missing(installed, deps.deep_view()) == spec_first_missing(
                installed,
                deps.deep_view().skip(i as int),
            ),
            installed == b.deep_view().installed,
        decreases deps.len() - i,
    {
        let ghost rest = deps.deep_view().skip(i as int);
        assert(rest[0] == deps.deep_view()[i as int]);
        assert(rest.drop_first() =~= deps.deep_view().skip(i + 1));
        if !b.is_plugin_added(deps[i].id) {
            return Err(MissingPluginError {
                required_by: required_by.to_owned(),
                missing: deps[i].name.clone(),
            });
        }
        i = i + 1;
    }
    assert(deps.deep_view().skip(deps.len() as int) =~= Seq::<TypeInfoV>::empty());
    Ok(())
}

/// The display names of a requirement list, in declared order.
pub fn dependency_names(deps: &Vec<TypeInfo>) -> (r: Vec<String>)
    ensures
        r.deep_view() == deps.deep_view().map_values(|t: TypeInfoV| t.name),
{
    let mut out: Vec<String> = Vec::new();
    let mut i: usize = 0;
    while i < deps.len()
        invariant
            i <= deps.len(),
            out@.len() == i,
            forall|j: int|
                0 <= j < i ==> out.deep_view()[j] == (#[trigger] deps.deep_view()[j]).name,
        decreases deps.len() - i,
    {
        out.push(deps[i].name.clone());
        i = i + 1;
    }
    assert(out.deep_view() =~= deps.deep_view().map_values(|t: TypeInfoV| t.name));
    out
}

} // verus!
