//! The data that flows through the pipeline, and the mathematical model of each
//! type. Every executable type has a view that replaces its strings by
//! sequences of characters; all contracts are stated over these views.

use vstd::prelude::*;

verus! {

/// The view of an optional string.
pub open spec fn text_of(o: Option<String>) -> Option<Seq<char>> {
    match o {
        Some(s) => Some(s@),
        None => None,
    }
}

/// The views of a sequence of strings, in order.
pub open spec fn texts_of(v: Seq<String>) -> Seq<Seq<char>> {
    Seq::new(v.len(), |i: int| v[i]@)
}

/// The views of an optional list of strings.
pub open spec fn list_of(o: Option<Vec<String>>) -> Option<Seq<Seq<char>>> {
    match o {
        Some(v) => Some(texts_of(v@)),
        None => None,
    }
}

/// One declared parameter of a function.
#[derive(Debug, Clone, PartialEq, Eq)]
pub struct Parameter {
    /// The bound identifier, where the binding pattern is a simple name.
    pub name: Option<String>,
    /// The parameter as declared: binding pattern and type.
    pub text: String,
}

pub struct ParameterModel {
    pub name: Option<Seq<char>>,
    pub text: Seq<char>,
}

impl View for Parameter {
    type V = ParameterModel;

    open spec fn view(&self) -> ParameterModel {
        ParameterModel { name: text_of(self.name), text: self.text@ }
    }
}

/// The views of a parameter list, in declaration order.
pub open spec fn parameters_of(v: Seq<Parameter>) -> Seq<ParameterModel> {
    Seq::new(v.len(), |i: int| v[i]@)
}

/// The annotated function: read, never changed.
#[derive(Debug, Clone, PartialEq, Eq)]
pub struct SourceFunction {
    /// The visibility qualifier as written; empty where there is none.
    pub visibility: String,
    pub name: String,
    pub params: Vec<Parameter>,
    /// The body block, braces included.
    pub body: String,
}

pub struct SourceFunctionModel {
    pub visibility: Seq<char>,
    pub name: Seq<char>,
    pub params: Seq<ParameterModel>,
    pub body: Seq<char>,
}

impl View for SourceFunction {
    type V = SourceFunctionModel;

    open spec fn view(&self) -> SourceFunctionModel {
        SourceFunctionModel {
            visibility: self.visibility@,
            name: self.name@,
            params: parameters_of(self.params@),
            body: self.body@,
        }
    }
}

/// The view of an optional source function.
pub open spec fn function_of(o: Option<SourceFunction>) -> Option<SourceFunctionModel> {
    match o {
        Some(f) => Some(f@),
        None => None,
    }
}

/// A weight annotation, in exactly one of its three shapes.
#[derive(Debug, Clone, PartialEq, Eq)]
pub enum AnnotationSpec {
    /// An expression of the weight type, evaluated on every call.
    ConstantExpression(String),
    /// The name of a function that computes the weight from the same arguments.
    DelegateFunction(String),
    /// The weight of a success, then the weight of a failure.
    ResultBranch(String, String),
}

pub enum AnnotationModel {
    ConstantExpression(Seq<char>),
    DelegateFunction(Seq<char>),
    ResultBranch(Seq<char>, Seq<char>),
}

impl View for AnnotationSpec {
    type V = AnnotationModel;

    open spec fn view(&self) -> AnnotationModel {
        match *self {
            AnnotationSpec::ConstantExpression(e) => AnnotationModel::ConstantExpression(e@),
            AnnotationSpec::DelegateFunction(g) => AnnotationModel::DelegateFunction(g@),
            AnnotationSpec::ResultBranch(s, f) => AnnotationModel::ResultBranch(s@, f@),
        }
    }
}

/// Why a transformation was abandoned. Each error carries the offending text.
#[derive(Debug, Clone, PartialEq, Eq)]
pub enum TransformError {
    /// The annotated item is not a function declaration.
    UnparsableFunction(String),
    /// The annotation has none of the accepted shapes.
    UnparsableAnnotation(String),
    /// The annotation is a tuple with fewer than two elements.
    MalformedTuple(String),
}

pub enum ErrorModel {
    UnparsableFunction(Seq<char>),
    UnparsableAnnotation(Seq<char>),
    MalformedTuple(Seq<char>),
}

impl View for TransformError {
    type V = ErrorModel;

    open spec fn view(&self) -> ErrorModel {
        match *self {
            TransformError::UnparsableFunction(t) => ErrorModel::UnparsableFunction(t@),
            TransformError::UnparsableAnnotation(t) => ErrorModel::UnparsableAnnotation(t@),
            TransformError::MalformedTuple(t) => ErrorModel::MalformedTuple(t@),
        }
    }
}

/// The rule by which a generated function computes its weight, after it has
/// run the source body.
#[derive(Debug, Clone, PartialEq, Eq)]
pub enum WeightRule {
    /// Discard the body's value and evaluate the expression.
    Constant(String),
    /// Discard the body's value and call the function on the arguments.
    Delegate(String, Vec<String>),
    /// Match the body's value: the first expression on success, the second on
    /// failure.
    Branch(String, String),
}

pub enum RuleModel {
    Constant(Seq<char>),
    Delegate(Seq<char>, Seq<Seq<char>>),
    Branch(Seq<char>, Seq<char>),
}

impl View for WeightRule {
    type V = RuleModel;

    open spec fn view(&self) -> RuleModel {
        match *self {
            WeightRule::Constant(e) => RuleModel::Constant(e@),
            WeightRule::Delegate(g, args) => RuleModel::Delegate(g@, texts_of(args@)),
            WeightRule::Branch(s, f) => RuleModel::Branch(s@, f@),
        }
    }
}

/// The synthesized companion of a source function.
#[derive(Debug, Clone, PartialEq, Eq)]
pub struct GeneratedFunction {
    pub visibility: String,
    pub name: String,
    pub params: Vec<Parameter>,
    /// The source function's body, copied verbatim.
    pub body: String,
    pub rule: WeightRule,
}

pub struct GeneratedModel {
    pub visibility: Seq<char>,
    pub name: Seq<char>,
    pub params: Seq<ParameterModel>,
    pub body: Seq<char>,
    pub rule: RuleModel,
}

impl View for GeneratedFunction {
    type V = GeneratedModel;

    open spec fn view(&self) -> GeneratedModel {
        GeneratedModel {
            visibility: self.visibility@,
            name: self.name@,
            params: parameters_of(self.params@),
            body: self.body@,
            rule: self.rule@,
        }
    }
}

/// How the evaluation of a body ended, for a body of a two-variant outcome type.
#[derive(Debug, Clone, Copy, PartialEq, Eq, Structural)]
pub enum Outcome {
    Success,
    Failure,
}

/// What a generated function evaluates to obtain the weight it returns.
#[derive(Debug, Clone, PartialEq, Eq)]
pub enum WeightTerm {
    /// The value of an expression.
    Expression(String),
    /// The result of a call, with the arguments passed by position.
    Call(String, Vec<String>),
}

pub enum TermModel {
    Expression(Seq<char>),
    Call(Seq<char>, Seq<Seq<char>>),
}

impl View for WeightTerm {
    type V = TermModel;

    open spec fn view(&self) -> TermModel {
        match *self {
            WeightTerm::Expression(e) => TermModel::Expression(e@),
            WeightTerm::Call(g, args) => TermModel::Call(g@, texts_of(args@)),
        }
    }
}

/// The view of a classification result.
pub open spec fn classified_of(r: Result<AnnotationSpec, TransformError>) -> Result<
    AnnotationModel,
    ErrorModel,
> {
    match r {
        Ok(a) => Ok(a@),
        Err(e) => Err(e@),
    }
}

/// The view of a synthesis result.
pub open spec fn generated_of(r: Result<GeneratedFunction, TransformError>) -> Result<
    GeneratedModel,
    ErrorModel,
> {
    match r {
        Ok(g) => Ok(g@),
        Err(e) => Err(e@),
    }
}

/// The view of a rendered result.
pub open spec fn rendered_of(r: Result<String, TransformError>) -> Result<Seq<char>, ErrorModel> {
    match r {
        Ok(s) => Ok(s@),
        Err(e) => Err(e@),
    }
}

} // verus!
