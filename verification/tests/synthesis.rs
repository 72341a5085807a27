use derive_weight::render::join;
use derive_weight::{
    extract_identifiers, synthesize, AnnotationSpec, GeneratedFunction, Outcome, Parameter,
    SourceFunction, WeightRule, WeightTerm,
};

fn s(text: &str) -> String {
    text.to_string()
}

fn named(name: &str, text: &str) -> Parameter {
    Parameter { name: Some(s(name)), text: s(text) }
}

fn pattern(text: &str) -> Parameter {
    Parameter { name: None, text: s(text) }
}

fn source() -> SourceFunction {
    SourceFunction {
        visibility: s(""),
        name: s("f"),
        params: vec![named("i", "i : u32"), pattern("(a , b) : (u32 , u32)"), named("j", "j : u32")],
        body: s("{ i + a + b + j }"),
    }
}

#[test]
fn extraction_keeps_simple_names_in_order() {
    let params = vec![named("i", "i : u32"), named("j", "j : u32"), named("k", "k : u8")];
    assert_eq!(extract_identifiers(&params), vec![s("i"), s("j"), s("k")]);
}

#[test]
fn extraction_skips_patterns() {
    assert_eq!(extract_identifiers(&source().params), vec![s("i"), s("j")]);
    let only_patterns = vec![pattern("_ : u8"), pattern("(a , b) : (u8 , u8)")];
    assert_eq!(extract_identifiers(&only_patterns), Vec::<String>::new());
}

#[test]
fn extraction_of_nothing_is_empty() {
    assert_eq!(extract_identifiers(&Vec::new()), Vec::<String>::new());
}

#[test]
fn extraction_keeps_duplicates() {
    let params = vec![named("x", "x : u8"), named("x", "x : u16")];
    assert_eq!(extract_identifiers(&params), vec![s("x"), s("x")]);
}

#[test]
fn extraction_takes_the_name_not_the_type() {
    let params = vec![named("count", "mut count : usize")];
    assert_eq!(extract_identifiers(&params), vec![s("count")]);
}

#[test]
fn constant_rule_is_synthesized() {
    let g = synthesize(&source(), AnnotationSpec::ConstantExpression(s("Weight :: zero ()")));
    assert_eq!(
        g,
        GeneratedFunction {
            visibility: s(""),
            name: s("weighted_f"),
            params: source().params,
            body: s("{ i + a + b + j }"),
            rule: WeightRule::Constant(s("Weight :: zero ()")),
        }
    );
}

#[test]
fn constant_rule_returns_the_expression_on_every_outcome() {
    let g = synthesize(&source(), AnnotationSpec::ConstantExpression(s("W")));
    assert_eq!(g.weight_term(Outcome::Success), WeightTerm::Expression(s("W")));
    assert_eq!(g.weight_term(Outcome::Failure), WeightTerm::Expression(s("W")));
}

#[test]
fn delegate_rule_calls_with_the_simple_names() {
    let g = synthesize(&source(), AnnotationSpec::DelegateFunction(s("cost")));
    assert_eq!(g.rule, WeightRule::Delegate(s("cost"), vec![s("i"), s("j")]));
    assert_eq!(g.params, source().params);
    assert_eq!(g.weight_term(Outcome::Success), WeightTerm::Call(s("cost"), vec![s("i"), s("j")]));
    assert_eq!(g.weight_term(Outcome::Failure), WeightTerm::Call(s("cost"), vec![s("i"), s("j")]));
}

#[test]
fn branch_rule_selects_by_outcome() {
    let g = synthesize(&source(), AnnotationSpec::ResultBranch(s("W_ok"), s("W_err")));
    assert_eq!(g.rule, WeightRule::Branch(s("W_ok"), s("W_err")));
    assert_eq!(g.weight_term(Outcome::Success), WeightTerm::Expression(s("W_ok")));
    assert_eq!(g.weight_term(Outcome::Failure), WeightTerm::Expression(s("W_err")));
}

#[test]
fn synthesis_keeps_visibility_and_body() {
    let mut f = source();
    f.visibility = s("pub (crate)");
    let g = synthesize(&f, AnnotationSpec::ConstantExpression(s("W")));
    assert_eq!(g.visibility, "pub (crate)");
    assert_eq!(g.body, f.body);
    assert_eq!(g.name, "weighted_f");
}

#[test]
fn join_separates_with_comma_and_space() {
    assert_eq!(join(&vec![]), "");
    assert_eq!(join(&vec![s("a")]), "a");
    assert_eq!(join(&vec![s("a"), s("b"), s("c")]), "a, b, c");
}

#[test]
fn constant_rule_is_rendered() {
    let g = synthesize(&source(), AnnotationSpec::ConstantExpression(s("W")));
    assert_eq!(g.render_signature(), "fn weighted_f(i : u32, (a , b) : (u32 , u32), j : u32) -> Weight");
    assert_eq!(g.render_rule(), "let _ = { i + a + b + j }; W");
    assert_eq!(
        g.render(),
        "fn weighted_f(i : u32, (a , b) : (u32 , u32), j : u32) -> Weight { let _ = { i + a + b + j }; W }"
    );
}

#[test]
fn delegate_rule_is_rendered() {
    let g = synthesize(&source(), AnnotationSpec::DelegateFunction(s("cost")));
    assert_eq!(g.render_rule(), "let _ = { i + a + b + j }; cost(i, j)");
}

#[test]
fn delegate_without_arguments_is_rendered() {
    let f = SourceFunction { visibility: s(""), name: s("g"), params: vec![], body: s("{ }") };
    let g = synthesize(&f, AnnotationSpec::DelegateFunction(s("cost")));
    assert_eq!(g.render(), "fn weighted_g() -> Weight { let _ = { }; cost() }");
}

#[test]
fn branch_rule_is_rendered() {
    let g = synthesize(&source(), AnnotationSpec::ResultBranch(s("A"), s("B")));
    assert_eq!(g.render_rule(), "if let Ok(_i) = { i + a + b + j } { A } else { B }");
}

#[test]
fn visibility_is_rendered_before_fn() {
    let mut f = source();
    f.visibility = s("pub");
    f.params = vec![];
    let g = synthesize(&f, AnnotationSpec::ConstantExpression(s("W")));
    assert_eq!(g.render_signature(), "pub fn weighted_f() -> Weight");
}
