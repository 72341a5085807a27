//! The annotation classifier: which of the three shapes an annotation has.
//!
//! The shapes are tried in a fixed order and the first that fits decides: a
//! single identifier, then a tuple, then any expression. The order matters,
//! since an identifier is also an expression.
//!
//! A tuple supplies the weight of a success and the weight of a failure as its
//! first two elements. Elements after the second are accepted and ignored; a
//! tuple with fewer than two is refused as malformed.

use crate::model::{
    classified_of, list_of, text_of, AnnotationModel, AnnotationSpec, ErrorModel, TransformError,
};
use crate::syntax::{
    parse_expression, parse_identifier, parse_tuple, parsed_expression, parsed_identifier,
    parsed_tuple,
};
use vstd::prelude::*;
use vstd::string::StringExecFns;

verus! {

/// The classification of the annotation `raw`, given what each of the three
/// grammars reads from it.
pub open spec fn classification(
    raw: Seq<char>,
    identifier: Option<Seq<char>>,
    tuple: Option<Seq<Seq<char>>>,
    expression: Option<Seq<char>>,
) -> Result<AnnotationModel, ErrorModel> {
    if let Some(g) = identifier {
        Ok(AnnotationModel::DelegateFunction(g))
    } else if let Some(elements) = tuple {
        if elements.len() >= 2 {
            Ok(AnnotationModel::ResultBranch(elements[0], elements[1]))
        } else {
            Err(ErrorModel::MalformedTuple(raw))
        }
    } else if let Some(e) = expression {
        Ok(AnnotationModel::ConstantExpression(e))
    } else {
        Err(ErrorModel::UnparsableAnnotation(raw))
    }
}

/// The classification of the annotation `raw` as the parser reads it.
pub open spec fn classified(raw: Seq<char>) -> Result<AnnotationModel, ErrorModel> {
    classification(raw, parsed_identifier(raw), parsed_tuple(raw), parsed_expression(raw))
}

/// Decides the shape of the annotation `raw` from the three readings of it: as
/// an identifier, as a tuple and as an expression, each `None` where the
/// grammar does not fit.
pub fn classify_parsed(
    raw: &str,
    identifier: Option<String>,
    tuple: Option<Vec<String>>,
    expression: Option<String>,
) -> (r: Result<AnnotationSpec, TransformError>)
    ensures
        classified_of(r) == classification(
            raw@,
            text_of(identifier),
            list_of(tuple),
            text_of(expression),
        ),
{
    if let Some(g) = identifier {
        Ok(AnnotationSpec::DelegateFunction(g))
    } else if let Some(elements) = tuple {
        if elements.len() >= 2 {
            let success = elements[0].clone();
            let failure = elements[1].clone();
            Ok(AnnotationSpec::ResultBranch(success, failure))
        } else {
            Err(TransformError::MalformedTuple(String::from_str(raw)))
        }
    } else if let Some(e) = expression {
        Ok(AnnotationSpec::ConstantExpression(e))
    } else {
        Err(TransformError::UnparsableAnnotation(String::from_str(raw)))
    }
}

/// Classifies the annotation `raw`.
pub fn classify(raw: &str) -> (r: Result<AnnotationSpec, TransformError>)
    ensures
        classified_of(r) == classified(raw@),
{
    let identifier = parse_identifier(raw);
    let tuple = parse_tuple(raw);
    let expression = parse_expression(raw);
    classify_parsed(raw, identifier, tuple, expression)
}

/// An annotation that reads both as an identifier and as an expression is a
/// delegate function, never a constant expression.
pub proof fn identifier_takes_priority(
    raw: Seq<char>,
    g: Seq<char>,
    tuple: Option<Seq<Seq<char>>>,
    e: Seq<char>,
)
    ensures
        classification(raw, Some(g), tuple, Some(e)) == Ok::<AnnotationModel, ErrorModel>(
            AnnotationModel::DelegateFunction(g),
        ),
{
}

/// Classification is total and its outcomes exclude one another: an annotation
/// is a delegate exactly when it reads as an identifier, a result branch or a
/// malformed tuple exactly when it does not but reads as a tuple, a constant
/// exactly when only the expression grammar fits, and unparsable exactly when
/// none does.
pub proof fn classification_is_exclusive(
    raw: Seq<char>,
    identifier: Option<Seq<char>>,
    tuple: Option<Seq<Seq<char>>>,
    expression: Option<Seq<char>>,
)
    ensures
        (classification(raw, identifier, tuple, expression) matches Ok(
            AnnotationModel::DelegateFunction(_),
        )) <==> identifier is Some,
        (classification(raw, identifier, tuple, expression) matches Ok(
            AnnotationModel::ResultBranch(_, _),
        )) <==> identifier is None && tuple is Some && tuple->0.len() >= 2,
        (classification(raw, identifier, tuple, expression) matches Err(
            ErrorModel::MalformedTuple(_),
        )) <==> identifier is None && tuple is Some && tuple->0.len() < 2,
        (classification(raw, identifier, tuple, expression) matches Ok(
            AnnotationModel::ConstantExpression(_),
        )) <==> identifier is None && tuple is None && expression is Some,
        (classification(raw, identifier, tuple, expression) matches Err(
            ErrorModel::UnparsableAnnotation(_),
        )) <==> identifier is None && tuple is None && expression is None,
{
}

} // verus!
