//! The parameter policy: where the injected error-sink parameter lands.
//!
//! The execution host resolves most parameters by their type, so their order
//! is immaterial; a parameter of a designated capability type is resolved
//! positionally and must remain first. That convention is held as data, in a
//! [`PolicyTable`], rather than as a hardcoded name match.

use vstd::prelude::*;
use vstd::seq_lib::*;
use crate::ast::{Parameter, ParameterV, Pattern, PatternV, TypeExpr, TypeExprV, clone_parameters};

verus! {

/// How the execution host resolves a parameter of a given type.
#[derive(Clone, Copy, Debug, PartialEq, Eq, Structural)]
pub enum Resolution {
    /// The parameter must keep its position for the host to recognise it.
    Positional,
    /// The parameter is resolved by its type; its position is immaterial.
    ByType,
}

/// Spec view of [`PolicyEntry`].
#[verifier::ext_equal]
pub struct PolicyEntryV {
    pub ty_name: Seq<char>,
    pub resolution: Resolution,
}

/// One row of the policy table: a type name and its resolution strategy.
#[derive(Debug)]
pub struct PolicyEntry {
    pub ty_name: String,
    pub resolution: Resolution,
}

impl View for PolicyEntry {
    type V = PolicyEntryV;

    open spec fn view(&self) -> PolicyEntryV {
        PolicyEntryV { ty_name: self.ty_name@, resolution: self.resolution }
    }
}

impl DeepView for PolicyEntry {
    type V = PolicyEntryV;

    open spec fn deep_view(&self) -> PolicyEntryV {
        self.view()
    }
}

/// Spec view of [`PolicyTable`].
#[verifier::ext_equal]
pub struct PolicyTableV {
    pub entries: Seq<PolicyEntryV>,
}

/// The declared resolution policy: which type names the host resolves
/// positionally. Types not listed are resolved by type.
#[derive(Debug)]
pub struct PolicyTable {
    pub entries: Vec<PolicyEntry>,
}

impl View for PolicyTable {
    type V = PolicyTableV;

    open spec fn view(&self) -> PolicyTableV {
        PolicyTableV { entries: self.entries.deep_view() }
    }
}

impl PolicyTableV {
    /// The strategy recorded from entry `i` on: the first matching entry
    /// wins, and a name with no entry is resolved by type.
    pub open spec fn resolution_from(self, i: int, name: Seq<char>) -> Resolution
        decreases self.entries.len() - i,
    {
        if i < 0 || i >= self.entries.len() {
            Resolution::ByType
        } else if self.entries[i].ty_name == name {
            self.entries[i].resolution
        } else {
            self.resolution_from(i + 1, name)
        }
    }

    /// The strategy the table records for a type name.
    pub open spec fn resolution_of(self, name: Seq<char>) -> Resolution {
        self.resolution_from(0, name)
    }
}

impl PolicyTable {
    /// Looks a type name up in the table.
    pub fn resolution_of(&self, name: &String) -> (r: Resolution)
        ensures
            r == self@.resolution_of(name@),
    {
        let mut i: usize = 0;
        while i < self.entries.len()
            invariant
                i <= self.entries.len(),
                self@.resolution_of(name@) == self@.resolution_from(i as int, name@),
            decreases self.entries.len() - i,
        {
            if self.entries[i].ty_name == *name {
                return self.entries[i].resolution;
            }
            i = i + 1;
        }
        Resolution::ByType
    }
}

/// The designated leading-capability policy: a single positionally resolved
/// type, the host's command-queue capability.
pub open spec fn standard_policy_v() -> PolicyTableV {
    PolicyTableV {
        entries: seq![
            PolicyEntryV { ty_name: "Commands"@, resolution: Resolution::Positional },
        ],
    }
}

impl Default for PolicyTable {
    /// Builds the standard policy table.
    fn default() -> (t: Self)
        ensures
            t@ == standard_policy_v(),
    {
        let mut entries: Vec<PolicyEntry> = Vec::new();
        entries.push(PolicyEntry {
            ty_name: String::from_str("Commands"),
            resolution: Resolution::Positional,
        });
        let t = PolicyTable { entries };
        proof {
            assert(t@ =~~= standard_policy_v());
        }
        t
    }
}

/// Spec value of the injected parameter: a mutable handle to the
/// error-report sink. Its binding name and type are fixed constants of the
/// transform, never derived from the input.
pub open spec fn injected_param_v() -> ParameterV {
    ParameterV {
        binding: PatternV { mutable: true, name: "__error_events"@ },
        ty: TypeExprV { name: "ResMut"@, args: seq!["Events<SystemErrorEvent>"@] },
    }
}

/// Builds the injected error-sink parameter.
pub fn injected_parameter() -> (p: Parameter)
    ensures
        p@ == injected_param_v(),
{
    let mut args: Vec<String> = Vec::new();
    args.push(String::from_str("Events<SystemErrorEvent>"));
    let p = Parameter {
        binding: Pattern { mutable: true, name: String::from_str("__error_events") },
        ty: TypeExpr { name: String::from_str("ResMut"), args },
    };
    proof {
        assert(p@ =~~= injected_param_v());
    }
    p
}

/// True when the original parameter at position 0 is of a type the host
/// resolves positionally; only position 0 is ever inspected.
pub open spec fn is_leading_capability(params: Seq<ParameterV>, table: PolicyTableV) -> bool {
    params.len() > 0 && table.resolution_of(params[0].ty.name) is Positional
}

/// The position the injected parameter is spliced in at: 1 after a leading
/// capability parameter, else 0.
pub open spec fn injected_position(params: Seq<ParameterV>, table: PolicyTableV) -> int {
    if is_leading_capability(params, table) {
        1
    } else {
        0
    }
}

/// The final parameter list of the rewritten function.
pub open spec fn spliced_params(params: Seq<ParameterV>, table: PolicyTableV) -> Seq<ParameterV> {
    params.insert(injected_position(params, table), injected_param_v())
}

/// Decides whether the parameter list starts with a leading capability
/// parameter.
pub fn leading_capability(params: &Vec<Parameter>, table: &PolicyTable) -> (b: bool)
    ensures
        b == is_leading_capability(params.deep_view(), table@),
{
    if params.len() == 0 {
        return false;
    }
    let r = table.resolution_of(&params[0].ty.name);
    r == Resolution::Positional
}

/// Parameter policy: produce the parameter list of the rewritten function by
/// splicing the injected error-sink parameter into the original list. No
/// original parameter is reordered, renamed or retyped.
pub fn final_parameters(params: &Vec<Parameter>, table: &PolicyTable) -> (r: Vec<Parameter>)
    ensures
        r.deep_view() == spliced_params(params.deep_view(), table@),
{
    let mut r = clone_parameters(params);
    let pos: usize = if leading_capability(params, table) {
        1
    } else {
        0
    };
    r.insert(pos, injected_parameter());
    proof {
        assert(r.deep_view() =~~= spliced_params(params.deep_view(), table@));
    }
    r
}

/// Shape preservation: the final list is the original list with exactly one
/// injected parameter spliced in at the policy's position; every original
/// parameter keeps its binding, its type and its relative order.
pub proof fn lemma_shape_preservation(params: Seq<ParameterV>, table: PolicyTableV)
    ensures
        ({
            let pos = injected_position(params, table);
            let out = spliced_params(params, table);
            &&& 0 <= pos <= params.len()
            &&& out.len() == params.len() + 1
            &&& out[pos] == injected_param_v()
            &&& forall|i: int| 0 <= i < pos ==> out[i] == params[i]
            &&& forall|i: int| pos <= i < params.len() ==> out[i + 1] == params[i]
        }),
{
    let pos = injected_position(params, table);
    params.insert_ensures(pos, injected_param_v());
}

/// Leading-capability rule: the injected parameter stands at position 1
/// exactly when the original parameter at position 0 is of the designated
/// capability type, and at position 0 otherwise.
pub proof fn lemma_leading_capability_rule(params: Seq<ParameterV>, table: PolicyTableV)
    ensures
        injected_position(params, table) == 1 <==> is_leading_capability(params, table),
        injected_position(params, table) == 0 <==> !is_leading_capability(params, table),
        spliced_params(params, table)[injected_position(params, table)] == injected_param_v(),
{
    let pos = injected_position(params, table);
    params.insert_ensures(pos, injected_param_v());
}

} // verus!
