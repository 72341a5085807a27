//! The whole transformation, from the text of a function and of its annotation
//! to the text of the companion function.
//!
//! There is one classifier for every application. Each entry point, under
//! whichever name it is called, classifies the annotation by the same fixed
//! order of shapes and synthesizes by the rule of the shape found:
//! [`derive_weight_expr`], [`derive_weight_fn`], [`derive_weight_result`],
//! [`weight`] and [`weight_function`] all do what [`transform`] does. So a bare
//! identifier names a delegate under each of them, and a pair of weights is a
//! result branch under each of them.
//!
//! The function text is read first: where it is no function, that error is
//! reported whatever the annotation holds.
//!
//! An error carries the offending text. [`diagnostic`] makes of it the message
//! to show, which names the function and the annotation that failed together.

use crate::classify::{classification, classified, classify};
use crate::model::{
    classified_of, function_of, generated_of, rendered_of, AnnotationModel, AnnotationSpec,
    ErrorModel, GeneratedFunction, GeneratedModel, SourceFunction, SourceFunctionModel,
    TransformError,
};
use crate::render::{error_message, rendered};
use crate::syntax::{parse_function, parsed_function};
use crate::synthesize::{synthesize, synthesized};
use vstd::prelude::*;
use vstd::string::StringExecFns;

verus! {

/// The companion of the function read from `item`, for an annotation that was
/// read already. A text that is no function is reported first, then the
/// annotation's own error.
pub open spec fn expansion(
    item: Seq<char>,
    function: Option<SourceFunctionModel>,
    annotation: Result<AnnotationModel, ErrorModel>,
) -> Result<GeneratedModel, ErrorModel> {
    match function {
        None => Err(ErrorModel::UnparsableFunction(item)),
        Some(source) => match annotation {
            Err(e) => Err(e),
            Ok(spec) => Ok(synthesized(source, spec)),
        },
    }
}

/// The text of a generated function, or the error unchanged.
pub open spec fn emission(r: Result<GeneratedModel, ErrorModel>) -> Result<Seq<char>, ErrorModel> {
    match r {
        Ok(g) => Ok(rendered(g)),
        Err(e) => Err(e),
    }
}

/// The output of the transformation of `item` under `attr`, as the parser
/// reads the two texts.
pub open spec fn transformed(attr: Seq<char>, item: Seq<char>) -> Result<Seq<char>, ErrorModel> {
    emission(expansion(item, parsed_function(item), classified(attr)))
}

/// How a diagnostic refers to the annotated item: by the function's name where
/// the item is a function, by the item's text where it is not.
pub open spec fn subject(item: Seq<char>, function: Option<SourceFunctionModel>) -> Seq<char> {
    match function {
        Some(f) => f.name,
        None => item,
    }
}

/// The diagnostic of a failed transformation: the function, the annotation,
/// then the error's own message with the offending text.
pub open spec fn diagnosis(
    attr: Seq<char>,
    item: Seq<char>,
    function: Option<SourceFunctionModel>,
    e: ErrorModel,
) -> Seq<char> {
    "cannot derive a weight for `"@ + subject(item, function) + "` from the annotation `"@ + attr
        + "`: "@ + error_message(e)
}

/// Builds the companion from a function and an annotation that were read
/// already: `function` is `None` where `item` is no function declaration.
pub fn expand(
    item: &str,
    function: Option<SourceFunction>,
    annotation: Result<AnnotationSpec, TransformError>,
) -> (r: Result<GeneratedFunction, TransformError>)
    ensures
        generated_of(r) == expansion(item@, function_of(function), classified_of(annotation)),
{
    match function {
        None => Err(TransformError::UnparsableFunction(String::from_str(item))),
        Some(source) => match annotation {
            Err(e) => Err(e),
            Ok(spec) => Ok(synthesize(&source, spec)),
        },
    }
}

/// Writes a generated function out, or passes the error on.
pub fn emit(r: Result<GeneratedFunction, TransformError>) -> (out: Result<String, TransformError>)
    ensures
        rendered_of(out) == emission(generated_of(r)),
{
    match r {
        Ok(g) => Ok(g.render()),
        Err(e) => Err(e),
    }
}

/// Transforms the function `item` under the annotation `attr`: the annotation
/// is classified, and the companion is synthesized and written out. The result
/// depends on the two texts alone.
pub fn transform(attr: &str, item: &str) -> (out: Result<String, TransformError>)
    ensures
        rendered_of(out) == transformed(attr@, item@),
{
    let function = parse_function(item);
    let annotation = classify(attr);
    emit(expand(item, function, annotation))
}

/// Transforms the function `item` under the annotation `attr`, as
/// [`transform`] does. The name recalls the constant expression; an annotation
/// of another shape is classified and expanded as that shape.
pub fn derive_weight_expr(attr: &str, item: &str) -> (out: Result<String, TransformError>)
    ensures
        rendered_of(out) == transformed(attr@, item@),
{
    transform(attr, item)
}

/// Transforms the function `item` under the annotation `attr`, as
/// [`transform`] does. The name recalls the delegate function; an annotation of
/// another shape is classified and expanded as that shape.
pub fn derive_weight_fn(attr: &str, item: &str) -> (out: Result<String, TransformError>)
    ensures
        rendered_of(out) == transformed(attr@, item@),
{
    transform(attr, item)
}

/// Transforms the function `item` under the annotation `attr`, as
/// [`transform`] does. The name recalls the result branch; an annotation of
/// another shape is classified and expanded as that shape.
pub fn derive_weight_result(attr: &str, item: &str) -> (out: Result<String, TransformError>)
    ensures
        rendered_of(out) == transformed(attr@, item@),
{
    transform(attr, item)
}

/// The same transformation as [`derive_weight_expr`], under its short name.
pub fn weight(attr: &str, item: &str) -> (out: Result<String, TransformError>)
    ensures
        rendered_of(out) == transformed(attr@, item@),
{
    transform(attr, item)
}

/// The same transformation as [`derive_weight_fn`], under its short name.
pub fn weight_function(attr: &str, item: &str) -> (out: Result<String, TransformError>)
    ensures
        rendered_of(out) == transformed(attr@, item@),
{
    transform(attr, item)
}

/// Builds the diagnostic of the failure `error` of the annotation `attr` on
/// `item`, from what was read of the item: `function` is `None` where `item` is
/// no function declaration.
pub fn diagnose(
    attr: &str,
    item: &str,
    function: Option<SourceFunction>,
    error: &TransformError,
) -> (out: String)
    ensures
        out@ == diagnosis(attr@, item@, function_of(function), error@),
{
    let mut out = String::from_str("cannot derive a weight for `");
    match &function {
        Some(f) => out.append(f.name.as_str()),
        None => out.append(item),
    }
    out.append("` from the annotation `");
    out.append(attr);
    out.append("`: ");
    let message = error.message();
    out.append(message.as_str());
    out
}

/// The message to show when the transformation of `item` under `attr` has
/// failed with `error`. It names the function, or gives the item's text where
/// that is no function, then the annotation, then what failed.
pub fn diagnostic(attr: &str, item: &str, error: &TransformError) -> (out: String)
    ensures
        out@ == diagnosis(attr@, item@, parsed_function(item@), error@),
{
    diagnose(attr, item, parse_function(item), error)
}

/// Once the function and the annotation have been read, the expansion cannot
/// fail: it is the companion of that function under that annotation, whatever
/// binding patterns the parameters have.
pub proof fn expansion_succeeds(
    item: Seq<char>,
    source: SourceFunctionModel,
    spec: AnnotationModel,
)
    ensures
        expansion(item, Some(source), Ok(spec)) == Ok::<GeneratedModel, ErrorModel>(
            synthesized(source, spec),
        ),
        emission(expansion(item, Some(source), Ok(spec))) == Ok::<Seq<char>, ErrorModel>(
            rendered(synthesized(source, spec)),
        ),
{
}

/// Under every entry point an annotation that reads as an identifier names a
/// delegate, also where it reads as a tuple or as an expression too: on a
/// function that was read, the output is the companion that calls it.
pub proof fn identifier_is_called(
    attr: Seq<char>,
    item: Seq<char>,
    source: SourceFunctionModel,
    g: Seq<char>,
    tuple: Option<Seq<Seq<char>>>,
    expression: Option<Seq<char>>,
)
    ensures
        emission(expansion(item, Some(source), classification(attr, Some(g), tuple, expression)))
            == Ok::<Seq<char>, ErrorModel>(
            rendered(synthesized(source, AnnotationModel::DelegateFunction(g))),
        ),
{
}

/// Running the transformation again on the same two texts gives the same
/// output, character for character: any two results that meet the contract of
/// any entry point on one input are equal.
pub proof fn transformation_is_repeatable(
    attr: Seq<char>,
    item: Seq<char>,
    first: Result<Seq<char>, ErrorModel>,
    second: Result<Seq<char>, ErrorModel>,
)
    requires
        first == transformed(attr, item),
        second == transformed(attr, item),
    ensures
        first == second,
{
}

} // verus!
