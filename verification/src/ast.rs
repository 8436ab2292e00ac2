//! The syntactic data model the transformer operates on.
//!
//! A function definition is held as plain data: a name, an ordered parameter
//! list, an optional declared result type and an opaque body. Each executable
//! type has a spec-level view (`...V`) over which all contracts are stated.

use vstd::prelude::*;

verus! {

/// Whether the rewritten function replaces the original, or coexists with a
/// renamed copy of it.
#[derive(Clone, Copy, Debug, PartialEq, Eq, Structural)]
pub enum Mode {
    /// Emit only the rewritten function, under the original name.
    Replace,
    /// Emit the rewritten function under the original name, and the original
    /// function unmodified except for a fixed name suffix.
    Keep,
}

/// The transform-time failures. The transform emits no output on any of them.
#[derive(Clone, Copy, Debug, PartialEq, Eq, Structural)]
pub enum TransformError {
    /// The declared result type is not a two-arm sum type.
    MalformedSignature,
    /// The body rewriter was invoked on a spec whose result type is not a
    /// two-arm sum type; unreachable when the input came from the parser.
    MissingResultType,
    /// The mode selector token was not recognised.
    UnexpectedAttribute,
}

/// Spec view of [`TypeExpr`].
#[verifier::ext_equal]
pub struct TypeExprV {
    pub name: Seq<char>,
    pub args: Seq<Seq<char>>,
}

/// A flat type descriptor: a head name plus the printed names of its type
/// arguments, e.g. `Result<u32, ParseError>` as head `Result` with arguments
/// `u32` and `ParseError`. The transform never needs more structure than
/// this: it only matches head names and counts arguments.
#[derive(Debug)]
pub struct TypeExpr {
    pub name: String,
    pub args: Vec<String>,
}

impl View for TypeExpr {
    type V = TypeExprV;

    open spec fn view(&self) -> TypeExprV {
        TypeExprV { name: self.name@, args: self.args.deep_view() }
    }
}

impl TypeExprV {
    /// A two-arm success/failure sum type: the conventional `Result` with a
    /// success arm and a failure arm.
    pub open spec fn is_two_arm_sum(self) -> bool {
        self.name == "Result"@ && self.args.len() == 2
    }
}

impl TypeExpr {
    /// Decides whether this descriptor is a two-arm success/failure sum type.
    pub fn is_two_arm_sum(&self) -> (r: bool)
        ensures
            r == self@.is_two_arm_sum(),
    {
        self.name == String::from_str("Result") && self.args.len() == 2
    }
}

impl Clone for TypeExpr {
    fn clone(&self) -> (res: Self)
        ensures
            res@ == self@,
    {
        let res = TypeExpr { name: self.name.clone(), args: clone_strings(&self.args) };
        proof {
            assert(res@ =~~= self@);
        }
        res
    }
}

/// Clones a vector of strings, keeping its contents.
fn clone_strings(v: &Vec<String>) -> (r: Vec<String>)
    ensures
        r@ == v@,
{
    let mut r: Vec<String> = Vec::new();
    let mut i: usize = 0;
    while i < v.len()
        invariant
            i <= v.len(),
            r@ == v@.subrange(0, i as int),
        decreases v.len() - i,
    {
        r.push(v[i].clone());
        i = i + 1;
        proof {
            assert(r@ =~= v@.subrange(0, i as int));
        }
    }
    proof {
        assert(r@ =~= v@);
    }
    r
}

/// Spec view of [`Pattern`].
#[verifier::ext_equal]
pub struct PatternV {
    pub mutable: bool,
    pub name: Seq<char>,
}

/// A binding pattern: the bound identifier, and whether the binding is
/// mutable.
#[derive(Debug)]
pub struct Pattern {
    pub mutable: bool,
    pub name: String,
}

impl View for Pattern {
    type V = PatternV;

    open spec fn view(&self) -> PatternV {
        PatternV { mutable: self.mutable, name: self.name@ }
    }
}

impl DeepView for Pattern {
    type V = PatternV;

    open spec fn deep_view(&self) -> PatternV {
        self.view()
    }
}

impl Clone for Pattern {
    fn clone(&self) -> (res: Self)
        ensures
            res@ == self@,
    {
        Pattern { mutable: self.mutable, name: self.name.clone() }
    }
}

/// Spec view of [`Parameter`].
#[verifier::ext_equal]
pub struct ParameterV {
    pub binding: PatternV,
    pub ty: TypeExprV,
}

/// One parameter of a function: its binding pattern and its type descriptor.
/// Its position is its index in the parameter list that holds it.
#[derive(Debug)]
pub struct Parameter {
    pub binding: Pattern,
    pub ty: TypeExpr,
}

impl View for Parameter {
    type V = ParameterV;

    open spec fn view(&self) -> ParameterV {
        ParameterV { binding: self.binding@, ty: self.ty@ }
    }
}

impl DeepView for Parameter {
    type V = ParameterV;

    open spec fn deep_view(&self) -> ParameterV {
        self.view()
    }
}

impl Clone for Parameter {
    fn clone(&self) -> (res: Self)
        ensures
            res@ == self@,
    {
        let res = Parameter { binding: self.binding.clone(), ty: self.ty.clone() };
        proof {
            assert(res@ =~~= self@);
        }
        res
    }
}

/// Clones a parameter list, keeping its contents.
pub fn clone_parameters(v: &Vec<Parameter>) -> (r: Vec<Parameter>)
    ensures
        r.deep_view() == v.deep_view(),
{
    let mut r: Vec<Parameter> = Vec::new();
    let mut i: usize = 0;
    while i < v.len()
        invariant
            i <= v.len(),
            r@.len() == i as int,
            forall|j: int| 0 <= j < i ==> #[trigger] r@[j].deep_view() == v@[j].deep_view(),
        decreases v.len() - i,
    {
        r.push(v[i].clone());
        i = i + 1;
    }
    proof {
        assert(r.deep_view() =~~= v.deep_view());
    }
    r
}

/// One statement of a function body, held as opaque text: the transform
/// never looks inside a statement, it only moves whole bodies around.
#[derive(Debug)]
pub struct Stmt {
    pub text: String,
}

impl View for Stmt {
    type V = Seq<char>;

    open spec fn view(&self) -> Seq<char> {
        self.text@
    }
}

impl DeepView for Stmt {
    type V = Seq<char>;

    open spec fn deep_view(&self) -> Seq<char> {
        self.text@
    }
}

impl Clone for Stmt {
    fn clone(&self) -> (res: Self)
        ensures
            res@ == self@,
    {
        Stmt { text: self.text.clone() }
    }
}

/// Clones a statement list, keeping its contents.
pub fn clone_stmts(v: &Vec<Stmt>) -> (r: Vec<Stmt>)
    ensures
        r.deep_view() == v.deep_view(),
{
    let mut r: Vec<Stmt> = Vec::new();
    let mut i: usize = 0;
    while i < v.len()
        invariant
            i <= v.len(),
            r@.len() == i as int,
            forall|j: int| 0 <= j < i ==> #[trigger] r@[j].deep_view() == v@[j].deep_view(),
        decreases v.len() - i,
    {
        r.push(v[i].clone());
        i = i + 1;
    }
    proof {
        assert(r.deep_view() =~~= v.deep_view());
    }
    r
}

/// Spec view of [`Signature`].
#[verifier::ext_equal]
pub struct SignatureV {
    pub name: Seq<char>,
    pub params: Seq<ParameterV>,
    pub ret: Option<TypeExprV>,
}

/// A function signature: name, ordered parameter list, and the declared
/// result type, if any.
#[derive(Debug)]
pub struct Signature {
    pub name: String,
    pub params: Vec<Parameter>,
    pub ret: Option<TypeExpr>,
}

impl View for Signature {
    type V = SignatureV;

    open spec fn view(&self) -> SignatureV {
        SignatureV {
            name: self.name@,
            params: self.params.deep_view(),
            ret: match self.ret {
                Some(t) => Some(t@),
                None => None,
            },
        }
    }
}

impl Clone for Signature {
    fn clone(&self) -> (res: Self)
        ensures
            res@ == self@,
    {
        let res = Signature {
            name: self.name.clone(),
            params: clone_parameters(&self.params),
            ret: match &self.ret {
                Some(t) => Some(t.clone()),
                None => None,
            },
        };
        proof {
            assert(res@ =~~= self@);
        }
        res
    }
}

/// Spec view of [`FunctionDef`].
#[verifier::ext_equal]
pub struct FunctionDefV {
    pub sig: SignatureV,
    pub body: Seq<Seq<char>>,
}

/// A whole function definition as handed to the transform: a signature and
/// an opaque body.
#[derive(Debug)]
pub struct FunctionDef {
    pub sig: Signature,
    pub body: Vec<Stmt>,
}

impl View for FunctionDef {
    type V = FunctionDefV;

    open spec fn view(&self) -> FunctionDefV {
        FunctionDefV { sig: self.sig@, body: self.body.deep_view() }
    }
}

/// Spec view of [`FunctionSpec`].
#[verifier::ext_equal]
pub struct FunctionSpecV {
    pub name: Seq<char>,
    pub parameters: Seq<ParameterV>,
    pub result_type: TypeExprV,
    pub body: Seq<Seq<char>>,
}

/// The parsed input of the pipeline: a function definition whose declared
/// result type was established to be a two-arm sum type. Produced only by
/// the signature parser; immutable afterwards.
#[derive(Debug)]
pub struct FunctionSpec {
    pub name: String,
    pub parameters: Vec<Parameter>,
    pub result_type: TypeExpr,
    pub body: Vec<Stmt>,
}

impl View for FunctionSpec {
    type V = FunctionSpecV;

    open spec fn view(&self) -> FunctionSpecV {
        FunctionSpecV {
            name: self.name@,
            parameters: self.parameters.deep_view(),
            result_type: self.result_type@,
            body: self.body.deep_view(),
        }
    }
}

impl FunctionSpecV {
    /// Well-formedness: the result type really is a two-arm sum type.
    pub open spec fn wf(self) -> bool {
        self.result_type.is_two_arm_sum()
    }
}

} // verus!
