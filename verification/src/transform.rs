//! The rewriting pipeline: mode parsing, signature parsing, and the two
//! folds that emit the rewritten function (and, in Keep mode, the renamed
//! original beside it).

use vstd::prelude::*;
use vstd::string::StringExecFns;
use crate::ast::{
    FunctionDef, FunctionDefV, FunctionSpec, FunctionSpecV, Mode, Parameter, ParameterV, Pattern,
    PatternV, Signature, SignatureV, Stmt, TransformError, TypeExpr, TypeExprV, clone_stmts,
};
use crate::policy::{
    PolicyTable, PolicyTableV, final_parameters, lemma_shape_preservation, spliced_params,
    standard_policy_v,
};

verus! {

/// The fixed suffix a preserved original function's name gains in Keep mode.
pub open spec fn renamed(name: Seq<char>) -> Seq<char> {
    name + "_fallible"@
}

/// Appends the fixed Keep-mode suffix to a function name.
pub fn rename(name: &String) -> (r: String)
    ensures
        r@ == renamed(name@),
{
    name.clone().concat("_fallible")
}

/// A function definition is a valid transform input exactly when its
/// declared result type is a two-arm sum type.
pub open spec fn valid_input(d: FunctionDefV) -> bool {
    d.sig.ret matches Some(t) && t.is_two_arm_sum()
}

/// The function spec the parser extracts from a valid definition: name,
/// parameters and body verbatim, and the declared result type.
pub open spec fn spec_of(d: FunctionDefV) -> FunctionSpecV
    recommends
        valid_input(d),
{
    FunctionSpecV {
        name: d.sig.name,
        parameters: d.sig.params,
        result_type: d.sig.ret->Some_0,
        body: d.body,
    }
}

/// What mode a selector token denotes: no token is Replace, `keep` is Keep,
/// anything else is refused.
pub open spec fn parse_mode(tok: Option<Seq<char>>) -> Result<Mode, TransformError> {
    match tok {
        None => Ok(Mode::Replace),
        Some(s) => if s == "keep"@ {
            Ok(Mode::Keep)
        } else {
            Err(TransformError::UnexpectedAttribute)
        },
    }
}

impl Mode {
    /// Parses the mode selector token of an invocation.
    pub fn parse(input: &Option<String>) -> (r: Result<Mode, TransformError>)
        ensures
            r == parse_mode(input.deep_view()),
    {
        match input {
            None => Ok(Mode::Replace),
            Some(s) => {
                if *s == String::from_str("keep") {
                    Ok(Mode::Keep)
                } else {
                    Err(TransformError::UnexpectedAttribute)
                }
            },
        }
    }
}

impl FunctionSpec {
    /// Signature parser: consumes a function definition and produces the
    /// parsed spec, or fails when the declared result type is not a two-arm
    /// sum type. Parameters are kept in declaration order, verbatim.
    pub fn parse(def: FunctionDef) -> (r: Result<FunctionSpec, TransformError>)
        ensures
            r is Ok <==> valid_input(def@),
            r matches Ok(s) ==> s@ == spec_of(def@),
            !valid_input(def@) ==> r == Err::<FunctionSpec, TransformError>(
                TransformError::MalformedSignature,
            ),
    {
        let FunctionDef { sig, body } = def;
        let Signature { name, params, ret } = sig;
        match ret {
            Some(t) => {
                if t.is_two_arm_sum() {
                    Ok(FunctionSpec { name, parameters: params, result_type: t, body })
                } else {
                    Err(TransformError::MalformedSignature)
                }
            },
            None => Err(TransformError::MalformedSignature),
        }
    }
}

/// What the Keep-mode pass does to the original function's signature: its
/// name gains the fixed suffix and nothing else changes. The Replace-mode
/// pass leaves it untouched (it is then not emitted at all).
pub open spec fn spec_fold_original(mode: Mode, s: SignatureV) -> SignatureV {
    match mode {
        Mode::Replace => s,
        Mode::Keep => SignatureV { name: renamed(s.name), params: s.params, ret: s.ret },
    }
}

/// The pass over the original function. In Keep mode it renames the
/// function so it can stand beside the rewritten one; in Replace mode it is
/// the identity.
pub struct OriginalFold {
    pub mode: Mode,
}

impl OriginalFold {
    /// Builds the pass for a mode.
    pub fn new(mode: Mode) -> (r: Self)
        ensures
            r.mode == mode,
    {
        OriginalFold { mode }
    }

    /// Folds a signature: renamed in Keep mode, unchanged in Replace mode.
    pub fn fold_signature(&self, sig: Signature) -> (r: Signature)
        ensures
            r@ == spec_fold_original(self.mode, sig@),
    {
        match self.mode {
            Mode::Replace => sig,
            Mode::Keep => {
                let Signature { name, params, ret } = sig;
                Signature { name: rename(&name), params, ret }
            },
        }
    }
}

/// Spec view of [`Computation`].
#[verifier::ext_equal]
pub enum ComputationV {
    Inline { stmts: Seq<Seq<char>> },
    Forward { callee: Seq<char>, args: Seq<PatternV> },
}

/// How the rewritten body obtains the original computation's result: the
/// original statements inlined verbatim (Replace mode), or a single
/// forwarding call to the renamed original, passing the original parameters
/// through (Keep mode). The injected parameter is never forwarded.
#[derive(Debug)]
pub enum Computation {
    Inline { stmts: Vec<Stmt> },
    Forward { callee: String, args: Vec<Pattern> },
}

impl View for Computation {
    type V = ComputationV;

    open spec fn view(&self) -> ComputationV {
        match self {
            Computation::Inline { stmts } => ComputationV::Inline { stmts: stmts.deep_view() },
            Computation::Forward { callee, args } => ComputationV::Forward {
                callee: callee@,
                args: args.deep_view(),
            },
        }
    }
}

/// Spec view of [`RewrittenBody`].
#[verifier::ext_equal]
pub struct RewrittenBodyV {
    pub capture_ty: TypeExprV,
    pub computation: ComputationV,
    pub report_name: Seq<char>,
    pub sink_binding: Seq<char>,
}

/// The new body of a rewritten function: evaluate the computation exactly
/// once, capture its result as one local binding of the original two-arm
/// result type, and branch on it. The success arm has no observable effect;
/// the failure arm constructs an error report carrying `report_name` and the
/// failure value, and sends it through the binding named `sink_binding`.
/// The branch is the final statement; the function declares no result type.
#[derive(Debug)]
pub struct RewrittenBody {
    pub capture_ty: TypeExpr,
    pub computation: Computation,
    pub report_name: String,
    pub sink_binding: String,
}

impl View for RewrittenBody {
    type V = RewrittenBodyV;

    open spec fn view(&self) -> RewrittenBodyV {
        RewrittenBodyV {
            capture_ty: self.capture_ty@,
            computation: self.computation@,
            report_name: self.report_name@,
            sink_binding: self.sink_binding@,
        }
    }
}

/// The binding pattern of each parameter, in order: what a Keep-mode
/// forwarding call passes through.
pub open spec fn bindings_of(params: Seq<ParameterV>) -> Seq<PatternV> {
    params.map_values(|p: ParameterV| p.binding)
}

/// Collects the binding patterns of a parameter list, in order.
pub fn collect_bindings(params: &Vec<Parameter>) -> (r: Vec<Pattern>)
    ensures
        r.deep_view() == bindings_of(params.deep_view()),
{
    let mut r: Vec<Pattern> = Vec::new();
    let mut i: usize = 0;
    while i < params.len()
        invariant
            i <= params.len(),
            r@.len() == i as int,
            forall|j: int| 0 <= j < i ==> #[trigger] r@[j].view() == params@[j].view().binding,
        decreases params.len() - i,
    {
        r.push(params[i].binding.clone());
        i = i + 1;
    }
    proof {
        assert(r.deep_view() =~~= bindings_of(params.deep_view()));
    }
    r
}

/// The body the rewriter emits for a parsed function, per mode.
pub open spec fn spec_fold_block(mode: Mode, s: FunctionSpecV) -> RewrittenBodyV {
    RewrittenBodyV {
        capture_ty: s.result_type,
        computation: match mode {
            Mode::Replace => ComputationV::Inline { stmts: s.body },
            Mode::Keep => ComputationV::Forward {
                callee: renamed(s.name),
                args: bindings_of(s.parameters),
            },
        },
        report_name: s.name,
        sink_binding: "__error_events"@,
    }
}

/// The rewritten signature: the original name, the policy's parameter list,
/// and no declared result type.
pub open spec fn spec_fold_modified(table: PolicyTableV, s: SignatureV) -> SignatureV {
    SignatureV { name: s.name, params: spliced_params(s.params, table), ret: None }
}

/// The pass that produces the rewritten function, under the standard
/// resolution policy.
pub struct ModifiedFold {
    pub mode: Mode,
    pub table: PolicyTable,
}

impl ModifiedFold {
    /// Builds the pass for a mode, with the standard policy table.
    pub fn new(mode: Mode) -> (r: Self)
        ensures
            r.mode == mode,
            r.table@ == standard_policy_v(),
    {
        ModifiedFold { mode, table: PolicyTable::default() }
    }

    /// Folds a signature: the name is kept, the injected parameter is
    /// spliced in at the policy's position, and the declared result type is
    /// removed.
    pub fn fold_signature(&self, sig: &Signature) -> (r: Signature)
        ensures
            r@ == spec_fold_modified(self.table@, sig@),
    {
        let params = final_parameters(&sig.params, &self.table);
        let r = Signature { name: sig.name.clone(), params, ret: None };
        proof {
            assert(r@ =~~= spec_fold_modified(self.table@, sig@));
        }
        r
    }

    /// Body rewriter: produces the new body for a parsed function. Fails
    /// with `MissingResultType` when the spec's result type is not a
    /// two-arm sum type; unreachable for a spec the parser produced.
    pub fn fold_block(&self, fspec: &FunctionSpec) -> (r: Result<RewrittenBody, TransformError>)
        ensures
            r is Ok <==> fspec@.wf(),
            r matches Ok(b) ==> b@ == spec_fold_block(self.mode, fspec@),
            !fspec@.wf() ==> r == Err::<RewrittenBody, TransformError>(
                TransformError::MissingResultType,
            ),
    {
        if !fspec.result_type.is_two_arm_sum() {
            return Err(TransformError::MissingResultType);
        }
        let computation = match self.mode {
            Mode::Replace => Computation::Inline { stmts: clone_stmts(&fspec.body) },
            Mode::Keep => Computation::Forward {
                callee: rename(&fspec.name),
                args: collect_bindings(&fspec.parameters),
            },
        };
        let b = RewrittenBody {
            capture_ty: fspec.result_type.clone(),
            computation,
            report_name: fspec.name.clone(),
            sink_binding: String::from_str("__error_events"),
        };
        proof {
            assert(b@ =~~= spec_fold_block(self.mode, fspec@));
        }
        Ok(b)
    }
}

/// Spec view of [`RewrittenFunction`].
#[verifier::ext_equal]
pub struct RewrittenFunctionV {
    pub sig: SignatureV,
    pub body: RewrittenBodyV,
}

/// A rewritten function: the original name, the final parameter list, no
/// declared result type, and the rewritten body.
#[derive(Debug)]
pub struct RewrittenFunction {
    pub sig: Signature,
    pub body: RewrittenBody,
}

impl View for RewrittenFunction {
    type V = RewrittenFunctionV;

    open spec fn view(&self) -> RewrittenFunctionV {
        RewrittenFunctionV { sig: self.sig@, body: self.body@ }
    }
}

/// Spec view of [`TransformOutput`].
#[verifier::ext_equal]
pub struct TransformOutputV {
    pub rewritten: RewrittenFunctionV,
    pub preserved: Option<FunctionDefV>,
}

/// Everything one invocation of the transform emits: the rewritten function
/// and, in Keep mode only, the preserved original under its new name.
#[derive(Debug)]
pub struct TransformOutput {
    pub rewritten: RewrittenFunction,
    pub preserved: Option<FunctionDef>,
}

impl View for TransformOutput {
    type V = TransformOutputV;

    open spec fn view(&self) -> TransformOutputV {
        TransformOutputV {
            rewritten: self.rewritten@,
            preserved: match &self.preserved {
                Some(d) => Some(d@),
                None => None,
            },
        }
    }
}

/// What the whole transform emits for a valid definition and a mode.
pub open spec fn spec_transform(d: FunctionDefV, mode: Mode) -> TransformOutputV
    recommends
        valid_input(d),
{
    TransformOutputV {
        rewritten: RewrittenFunctionV {
            sig: spec_fold_modified(standard_policy_v(), d.sig),
            body: spec_fold_block(mode, spec_of(d)),
        },
        preserved: match mode {
            Mode::Replace => None,
            Mode::Keep => Some(
                FunctionDefV { sig: spec_fold_original(Mode::Keep, d.sig), body: d.body },
            ),
        },
    }
}

/// The view of an emitted result: the output's view on success, the error
/// unchanged on failure.
pub open spec fn output_view(r: Result<TransformOutput, TransformError>) -> Result<
    TransformOutputV,
    TransformError,
> {
    match r {
        Ok(out) => Ok(out@),
        Err(e) => Err(e),
    }
}

/// The transform's full behaviour: an unrecognised mode token is refused; a
/// definition whose result type is not a two-arm sum type is refused; any
/// other input is rewritten per mode.
pub open spec fn spec_fallable_system(d: FunctionDefV, tok: Option<Seq<char>>) -> Result<
    TransformOutputV,
    TransformError,
> {
    match parse_mode(tok) {
        Err(e) => Err(e),
        Ok(mode) => if valid_input(d) {
            Ok(spec_transform(d, mode))
        } else {
            Err(TransformError::MalformedSignature)
        },
    }
}

/// The transform, mode selector included: rewrites one function definition,
/// in Replace mode by default and in Keep mode under the `keep` token.
pub fn fallable_system(def: FunctionDef, attr: Option<String>) -> (r: Result<
    TransformOutput,
    TransformError,
>)
    ensures
        output_view(r) == spec_fallable_system(def@, attr.deep_view()),
{
    let ghost dv = def@;
    let mode = match Mode::parse(&attr) {
        Ok(m) => m,
        Err(e) => {
            return Err(e);
        },
    };
    let preserved = match mode {
        Mode::Replace => None,
        Mode::Keep => {
            let original = OriginalFold::new(mode);
            Some(FunctionDef {
                sig: original.fold_signature(def.sig.clone()),
                body: clone_stmts(&def.body),
            })
        },
    };
    let modified = ModifiedFold::new(mode);
    let sig = modified.fold_signature(&def.sig);
    let fspec = match FunctionSpec::parse(def) {
        Ok(s) => s,
        Err(e) => {
            return Err(e);
        },
    };
    let body = match modified.fold_block(&fspec) {
        Ok(b) => b,
        Err(e) => {
            return Err(e);
        },
    };
    let out = TransformOutput { rewritten: RewrittenFunction { sig, body }, preserved };
    proof {
        assert(out@ =~~= spec_transform(dv, mode));
    }
    Ok(out)
}

/// The single-mode transform: always Replace mode, under the standard
/// policy.
pub fn fallible_system(def: FunctionDef) -> (r: Result<TransformOutput, TransformError>)
    ensures
        output_view(r) == spec_fallable_system(def@, None),
{
    fallable_system(def, None)
}

/// Keep-mode preservation: the preserved function is the original function
/// with its parameter list, result type and body untouched; only its name
/// changes, by the fixed suffix.
pub proof fn lemma_keep_preserves_original(d: FunctionDefV)
    requires
        valid_input(d),
    ensures
        spec_transform(d, Mode::Keep).preserved matches Some(p) && {
            &&& p.sig.name == renamed(d.sig.name)
            &&& p.sig.params == d.sig.params
            &&& p.sig.ret == d.sig.ret
            &&& p.body == d.body
        },
{
}

/// Shape preservation at the transform level: whatever the mode, the
/// rewritten function's parameter list is the original list with exactly
/// one injected parameter spliced in at the policy's position; every
/// original parameter keeps its binding, its type and its relative order.
pub proof fn lemma_rewritten_shape(d: FunctionDefV, mode: Mode)
    requires
        valid_input(d),
    ensures
        spec_transform(d, mode).rewritten.sig.params == spliced_params(
            d.sig.params,
            standard_policy_v(),
        ),
        spec_transform(d, mode).rewritten.sig.params.len() == d.sig.params.len() + 1,
{
    lemma_shape_preservation(d.sig.params, standard_policy_v());
}

/// Name propagation, transform half: whatever the mode, the rewritten body
/// bakes in the original function's declared name as the report name.
pub proof fn lemma_report_name_is_original(d: FunctionDefV, mode: Mode)
    requires
        valid_input(d),
    ensures
        spec_transform(d, mode).rewritten.body.report_name == d.sig.name,
        spec_transform(d, mode).rewritten.sig.name == d.sig.name,
        spec_transform(d, mode).rewritten.sig.ret is None,
{
}

} // verus!
