//! The boundary to the Rust parser. Each function here hands a text to `syn`
//! and returns what was read as plain strings. Verus does not look into these
//! bodies: their contracts are taken on trust.
//!
//! Lexing and printing of tokens are done by `proc-macro2`. The manifest pins
//! its version and holds it, like `syn` and `quote`, without the `proc-macro`
//! feature, so that both are done by its own code in every process. The four
//! names below stand for what is read and printed in that build. With the
//! feature on, lexing and printing inside a macro expansion would go to the
//! compiler, and the printed text could differ in its spacing.

use crate::model::{
    function_of, list_of, text_of, Parameter, SourceFunction, SourceFunctionModel,
};
use quote::ToTokens;
use vstd::prelude::*;

verus! {

/// What `syn` reads from `text` as a single identifier: the identifier, or
/// `None` where the text is not exactly one identifier. It depends on the text
/// alone, in a build without the `proc-macro` feature.
pub uninterp spec fn parsed_identifier(text: Seq<char>) -> Option<Seq<char>>;

/// What `syn` reads from `text` as a tuple expression: its elements in order,
/// each printed as tokens, or `None` where the text is not a tuple expression.
/// It depends on the text alone, in a build without the `proc-macro` feature.
pub uninterp spec fn parsed_tuple(text: Seq<char>) -> Option<Seq<Seq<char>>>;

/// What `syn` reads from `text` as an expression: the expression printed as
/// tokens, or `None` where the text is not an expression. It depends on the
/// text alone, in a build without the `proc-macro` feature.
pub uninterp spec fn parsed_expression(text: Seq<char>) -> Option<Seq<char>>;

/// What `syn` reads from `text` as a function item: its visibility, name,
/// parameters and body, or `None` where the text is not a function item. It
/// depends on the text alone, in a build without the `proc-macro` feature.
pub uninterp spec fn parsed_function(text: Seq<char>) -> Option<SourceFunctionModel>;

/// Calls `syn::parse_str::<syn::Ident>`. Nothing is proved of it: the contract
/// only names the result, which depends on the text alone.
#[verifier::external_body]
pub(crate) fn parse_identifier(text: &str) -> (r: Option<String>)
    ensures
        text_of(r) == parsed_identifier(text@),
{
    syn::parse_str::<syn::Ident>(text).ok().map(|id| id.to_string())
}

/// Calls `syn::parse_str::<syn::ExprTuple>` and prints each element with
/// `to_token_stream`. Nothing is proved of it: the contract only names the
/// result, which depends on the text alone.
#[verifier::external_body]
pub(crate) fn parse_tuple(text: &str) -> (r: Option<Vec<String>>)
    ensures
        list_of(r) == parsed_tuple(text@),
{
    let tuple = syn::parse_str::<syn::ExprTuple>(text).ok()?;
    Some(tuple.elems.iter().map(|e| e.to_token_stream().to_string()).collect())
}

/// Calls `syn::parse_str::<syn::Expr>` and prints the expression with
/// `to_token_stream`. Nothing is proved of it: the contract only names the
/// result, which depends on the text alone.
#[verifier::external_body]
pub(crate) fn parse_expression(text: &str) -> (r: Option<String>)
    ensures
        text_of(r) == parsed_expression(text@),
{
    syn::parse_str::<syn::Expr>(text).ok().map(|e| e.to_token_stream().to_string())
}

/// Calls `syn::parse_str::<syn::ItemFn>` and copies out the visibility, the
/// name, each parameter and the body block, printed with `to_token_stream`. A
/// parameter has a name where it is typed and its pattern is `syn::Pat::Ident`.
/// Nothing is proved of it: the contract only names the result, which depends on
/// the text alone.
#[verifier::external_body]
pub(crate) fn parse_function(text: &str) -> (r: Option<SourceFunction>)
    ensures
        function_of(r) == parsed_function(text@),
{
    let f = syn::parse_str::<syn::ItemFn>(text).ok()?;
    let mut params: Vec<Parameter> = Vec::new();
    for arg in f.sig.inputs.iter() {
        let name = match arg {
            syn::FnArg::Typed(t) => match &*t.pat {
                syn::Pat::Ident(p) => Some(p.ident.to_string()),
                _ => None,
            },
            syn::FnArg::Receiver(_) => None,
        };
        params.push(Parameter { name, text: arg.to_token_stream().to_string() });
    }
    let (visibility, body) = (f.vis.to_token_stream().to_string(), f.block.to_token_stream().to_string());
    Some(SourceFunction { visibility, name: f.sig.ident.to_string(), params, body })
}

} // verus!
