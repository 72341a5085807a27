//! The wrapper synthesizer: from a source function and its classified
//! annotation to the companion function, and what that companion evaluates.

use crate::extract::{extract_identifiers, extracted};
use crate::model::{
    parameters_of, texts_of, AnnotationModel, AnnotationSpec, GeneratedFunction, GeneratedModel,
    Outcome, Parameter, ParameterModel, RuleModel, SourceFunction, SourceFunctionModel, TermModel, WeightRule,
    WeightTerm,
};
use vstd::prelude::*;
use vstd::string::StringExecFns;

verus! {

/// The name of the companion of the function called `name`.
pub open spec fn weighted_name(name: Seq<char>) -> Seq<char> {
    "weighted_"@ + name
}

/// The rule that an annotation selects for a function with the given
/// parameters.
pub open spec fn selected_rule(params: Seq<ParameterModel>, spec: AnnotationModel) -> RuleModel {
    match spec {
        AnnotationModel::ConstantExpression(e) => RuleModel::Constant(e),
        AnnotationModel::DelegateFunction(g) => RuleModel::Delegate(g, extracted(params)),
        AnnotationModel::ResultBranch(s, f) => RuleModel::Branch(s, f),
    }
}

/// The companion of `source` under the annotation `spec`: the derived name, the
/// source's visibility, parameters and body unchanged, and the selected rule.
pub open spec fn synthesized(source: SourceFunctionModel, spec: AnnotationModel) -> GeneratedModel {
    GeneratedModel {
        visibility: source.visibility,
        name: weighted_name(source.name),
        params: source.params,
        body: source.body,
        rule: selected_rule(source.params, spec),
    }
}

/// What the companion evaluates for its weight once the body has ended with
/// `outcome`. Only a branch rule looks at the outcome.
pub open spec fn returned(rule: RuleModel, outcome: Outcome) -> TermModel {
    match rule {
        RuleModel::Constant(e) => TermModel::Expression(e),
        RuleModel::Delegate(g, args) => TermModel::Call(g, args),
        RuleModel::Branch(s, f) => match outcome {
            Outcome::Success => TermModel::Expression(s),
            Outcome::Failure => TermModel::Expression(f),
        },
    }
}

/// One step of a call of the companion.
pub enum Step {
    /// The source body runs, with all its effects.
    RunBody(Seq<char>),
    /// The weight is computed and returned.
    Yield(TermModel),
}

/// The steps of one call of the companion, in program order, where the body
/// ends with `outcome`.
pub open spec fn evaluation(g: GeneratedModel, outcome: Outcome) -> Seq<Step> {
    seq![Step::RunBody(g.body), Step::Yield(returned(g.rule, outcome))]
}

/// A copy of a list of strings.
fn copy_texts(items: &Vec<String>) -> (copy: Vec<String>)
    ensures
        texts_of(copy@) == texts_of(items@),
{
    let mut copy: Vec<String> = Vec::new();
    let mut i: usize = 0;
    while i < items.len()
        invariant
            i <= items.len(),
            copy@.len() == i,
            forall|k: int| 0 <= k < i ==> copy@[k]@ == items@[k]@,
        decreases items.len() - i,
    {
        let item = items[i].clone();
        copy.push(item);
        i += 1;
    }
    assert(texts_of(copy@) =~= texts_of(items@));
    copy
}

/// A copy of a parameter list.
fn copy_parameters(params: &Vec<Parameter>) -> (copy: Vec<Parameter>)
    ensures
        parameters_of(copy@) == parameters_of(params@),
{
    let mut copy: Vec<Parameter> = Vec::new();
    let mut i: usize = 0;
    while i < params.len()
        invariant
            i <= params.len(),
            copy@.len() == i,
            forall|k: int| 0 <= k < i ==> copy@[k]@ == params@[k]@,
        decreases params.len() - i,
    {
        let name = match &params[i].name {
            Some(n) => Some(n.clone()),
            None => None,
        };
        let text = params[i].text.clone();
        copy.push(Parameter { name, text });
        i += 1;
    }
    assert(parameters_of(copy@) =~= parameters_of(params@));
    copy
}

/// Builds the companion of `source` under the annotation `spec`. This never
/// fails: the name is `weighted_` followed by the source's name; visibility,
/// parameters and body are those of the source; the rule follows the shape of
/// the annotation, a delegate being called on the extracted identifiers.
pub fn synthesize(source: &SourceFunction, spec: AnnotationSpec) -> (g: GeneratedFunction)
    ensures
        g@ == synthesized(source@, spec@),
{
    let mut name = String::from_str("weighted_");
    name.append(source.name.as_str());
    let rule = match spec {
        AnnotationSpec::ConstantExpression(e) => WeightRule::Constant(e),
        AnnotationSpec::DelegateFunction(g) => {
            WeightRule::Delegate(g, extract_identifiers(&source.params))
        },
        AnnotationSpec::ResultBranch(s, f) => WeightRule::Branch(s, f),
    };
    GeneratedFunction {
        visibility: source.visibility.clone(),
        name,
        params: copy_parameters(&source.params),
        body: source.body.clone(),
        rule,
    }
}

impl GeneratedFunction {
    /// What a call evaluates for its weight once the body has ended with
    /// `outcome`.
    pub fn weight_term(&self, outcome: Outcome) -> (term: WeightTerm)
        ensures
            term@ == returned(self@.rule, outcome),
    {
        match &self.rule {
            WeightRule::Constant(e) => WeightTerm::Expression(e.clone()),
            WeightRule::Delegate(g, args) => WeightTerm::Call(g.clone(), copy_texts(args)),
            WeightRule::Branch(s, f) => match outcome {
                Outcome::Success => WeightTerm::Expression(s.clone()),
                Outcome::Failure => WeightTerm::Expression(f.clone()),
            },
        }
    }
}

/// Under a constant annotation the companion returns the annotated expression
/// whatever the arguments and however the body ends, and the body runs exactly
/// once, before the weight is computed.
pub proof fn constant_weight_law(source: SourceFunctionModel, e: Seq<char>, outcome: Outcome)
    ensures
        returned(
            synthesized(source, AnnotationModel::ConstantExpression(e)).rule,
            outcome,
        ) == TermModel::Expression(e),
        evaluation(synthesized(source, AnnotationModel::ConstantExpression(e)), outcome)
            == seq![Step::RunBody(source.body), Step::Yield(TermModel::Expression(e))],
{
}

/// Under a delegate annotation the companion returns what the delegate returns
/// on the simple parameter names, passed by position in declaration order,
/// after the body has run once.
pub proof fn delegate_weight_law(source: SourceFunctionModel, g: Seq<char>, outcome: Outcome)
    ensures
        returned(synthesized(source, AnnotationModel::DelegateFunction(g)).rule, outcome)
            == TermModel::Call(g, extracted(source.params)),
        evaluation(synthesized(source, AnnotationModel::DelegateFunction(g)), outcome)
            == seq![
            Step::RunBody(source.body),
            Step::Yield(TermModel::Call(g, extracted(source.params))),
        ],
{
}

/// Under a result-branch annotation the companion returns the first expression
/// when the body ends in success and the second when it ends in failure; the
/// body has run once by then.
pub proof fn branch_weight_law(
    source: SourceFunctionModel,
    success: Seq<char>,
    failure: Seq<char>,
    outcome: Outcome,
)
    ensures
        returned(
            synthesized(source, AnnotationModel::ResultBranch(success, failure)).rule,
            outcome,
        ) == TermModel::Expression(
            match outcome {
                Outcome::Success => success,
                Outcome::Failure => failure,
            },
        ),
        evaluation(
            synthesized(source, AnnotationModel::ResultBranch(success, failure)),
            outcome,
        )[0] == Step::RunBody(source.body),
        evaluation(
            synthesized(source, AnnotationModel::ResultBranch(success, failure)),
            outcome,
        ).len() == 2,
{
}

/// Whatever the annotation, the companion keeps the source's visibility,
/// parameter list and body, and takes the derived name.
pub proof fn signature_is_preserved(source: SourceFunctionModel, spec: AnnotationModel)
    ensures
        synthesized(source, spec).visibility == source.visibility,
        synthesized(source, spec).params == source.params,
        synthesized(source, spec).body == source.body,
        synthesized(source, spec).name == weighted_name(source.name),
{
}

} // verus!
