//! The emitter: a generated function, and an error, written out as text.

use crate::model::{
    parameters_of, texts_of, ErrorModel, GeneratedFunction, GeneratedModel, Parameter,
    ParameterModel, RuleModel, TransformError, WeightRule,
};
use vstd::prelude::*;
use vstd::string::StringExecFns;

verus! {

/// The items separated by a comma and a space.
pub open spec fn joined(items: Seq<Seq<char>>) -> Seq<char>
    decreases items.len(),
{
    if items.len() == 0 {
        Seq::empty()
    } else if items.len() == 1 {
        items[0]
    } else {
        joined(items.drop_last()) + ", "@ + items.last()
    }
}

/// Each parameter as it was declared.
pub open spec fn declared(params: Seq<ParameterModel>) -> Seq<Seq<char>> {
    Seq::new(params.len(), |i: int| params[i].text)
}

/// The visibility qualifier, followed by a space where there is one.
pub open spec fn rendered_visibility(visibility: Seq<char>) -> Seq<char> {
    if visibility.len() == 0 {
        visibility
    } else {
        visibility + " "@
    }
}

/// The header of the generated function: visibility, name, the parameter list
/// and the weight return type.
pub open spec fn rendered_signature(g: GeneratedModel) -> Seq<char> {
    rendered_visibility(g.visibility) + "fn "@ + g.name + "("@ + joined(declared(g.params))
        + ") -> Weight"@
}

/// The statements of the generated function. The source body always comes
/// first; under a constant or a delegate rule its value is bound to a
/// placeholder and dropped, under a branch rule it is matched.
pub open spec fn rendered_rule(body: Seq<char>, rule: RuleModel) -> Seq<char> {
    match rule {
        RuleModel::Constant(e) => "let _ = "@ + body + "; "@ + e,
        RuleModel::Delegate(g, args) => "let _ = "@ + body + "; "@ + g + "("@ + joined(args)
            + ")"@,
        RuleModel::Branch(s, f) => "if let Ok(_i) = "@ + body + " { "@ + s + " } else { "@ + f
            + " }"@,
    }
}

/// The generated function as Rust source.
pub open spec fn rendered(g: GeneratedModel) -> Seq<char> {
    rendered_signature(g) + " { "@ + rendered_rule(g.body, g.rule) + " }"@
}

/// The message of an error: what failed, then the offending text.
pub open spec fn error_message(e: ErrorModel) -> Seq<char> {
    match e {
        ErrorModel::UnparsableFunction(t) => "failed to parse input as a function: "@ + t,
        ErrorModel::UnparsableAnnotation(t) => "failed to parse weight annotation: "@ + t,
        ErrorModel::MalformedTuple(t) => "weight annotation tuple needs two elements: "@ + t,
    }
}

/// Joins the items with a comma and a space.
pub fn join(items: &Vec<String>) -> (out: String)
    ensures
        out@ == joined(texts_of(items@)),
{
    let mut out = String::new();
    let mut i: usize = 0;
    assert(texts_of(items@).take(0) =~= Seq::empty());
    while i < items.len()
        invariant
            i <= items.len(),
            out@ == joined(texts_of(items@).take(i as int)),
        decreases items.len() - i,
    {
        let ghost before = out@;
        let ghost next = texts_of(items@).take(i + 1);
        assert(next.drop_last() =~= texts_of(items@).take(i as int));
        assert(next.last() == items@[i as int]@);
        if i > 0 {
            out.append(", ");
        }
        out.append(items[i].as_str());
        assert(i == 0 ==> out@ =~= items@[0]@);
        i += 1;
    }
    assert(texts_of(items@).take(i as int) =~= texts_of(items@));
    out
}

/// The declared text of each parameter, in order.
fn declared_texts(params: &Vec<Parameter>) -> (texts: Vec<String>)
    ensures
        texts_of(texts@) == declared(parameters_of(params@)),
{
    let mut texts: Vec<String> = Vec::new();
    let mut i: usize = 0;
    while i < params.len()
        invariant
            i <= params.len(),
            texts@.len() == i,
            forall|k: int| 0 <= k < i ==> texts@[k]@ == params@[k].text@,
        decreases params.len() - i,
    {
        let text = params[i].text.clone();
        texts.push(text);
        i += 1;
    }
    assert(texts_of(texts@) =~= declared(parameters_of(params@)));
    texts
}

impl GeneratedFunction {
    /// Writes the header: visibility, `fn`, the name, the parameters as
    /// declared, and the weight return type.
    pub fn render_signature(&self) -> (out: String)
        ensures
            out@ == rendered_signature(self@),
    {
        let mut out = self.visibility.clone();
        if !self.visibility.as_str().is_empty() {
            out.append(" ");
        }
        let list = join(&declared_texts(&self.params));
        out.append("fn ");
        out.append(self.name.as_str());
        out.append("(");
        out.append(list.as_str());
        out.append(") -> Weight");
        out
    }

    /// Writes the statements of the body.
    pub fn render_rule(&self) -> (out: String)
        ensures
            out@ == rendered_rule(self@.body, self@.rule),
    {
        match &self.rule {
            WeightRule::Constant(e) => {
                let mut out = String::from_str("let _ = ");
                out.append(self.body.as_str());
                out.append("; ");
                out.append(e.as_str());
                out
            },
            WeightRule::Delegate(g, args) => {
                let list = join(args);
                let mut out = String::from_str("let _ = ");
                out.append(self.body.as_str());
                out.append("; ");
                out.append(g.as_str());
                out.append("(");
                out.append(list.as_str());
                out.append(")");
                out
            },
            WeightRule::Branch(s, f) => {
                let mut out = String::from_str("if let Ok(_i) = ");
                out.append(self.body.as_str());
                out.append(" { ");
                out.append(s.as_str());
                out.append(" } else { ");
                out.append(f.as_str());
                out.append(" }");
                out
            },
        }
    }

    /// Writes the whole function as Rust source.
    pub fn render(&self) -> (out: String)
        ensures
            out@ == rendered(self@),
    {
        let mut out = self.render_signature();
        let rule = self.render_rule();
        out.append(" { ");
        out.append(rule.as_str());
        out.append(" }");
        out
    }
}

impl TransformError {
    /// The message to show: what failed, then the offending text.
    pub fn message(&self) -> (out: String)
        ensures
            out@ == error_message(self@),
    {
        match self {
            TransformError::UnparsableFunction(t) => {
                let mut out = String::from_str("failed to parse input as a function: ");
                out.append(t.as_str());
                out
            },
            TransformError::UnparsableAnnotation(t) => {
                let mut out = String::from_str("failed to parse weight annotation: ");
                out.append(t.as_str());
                out
            },
            TransformError::MalformedTuple(t) => {
                let mut out = String::from_str("weight annotation tuple needs two elements: ");
                out.append(t.as_str());
                out
            },
        }
    }
}

} // verus!
