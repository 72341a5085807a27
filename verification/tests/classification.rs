use derive_weight::{classify, classify_parsed, AnnotationSpec, TransformError};

fn s(text: &str) -> String {
    text.to_string()
}

#[test]
fn bare_identifier_is_a_delegate() {
    assert_eq!(
        classify("weight_for_do_something_else"),
        Ok(AnnotationSpec::DelegateFunction(s("weight_for_do_something_else")))
    );
}

#[test]
fn identifier_is_read_without_surrounding_space() {
    assert_eq!(classify("  compute \n"), Ok(AnnotationSpec::DelegateFunction(s("compute"))));
}

#[test]
fn pair_is_a_result_branch() {
    assert_eq!(
        classify("(Weight::zero(), Weight::from_parts(10, 10))"),
        Ok(AnnotationSpec::ResultBranch(s("Weight :: zero ()"), s("Weight :: from_parts (10 , 10)")))
    );
}

#[test]
fn longer_tuple_keeps_its_first_two_elements() {
    assert_eq!(classify("(a, b, c)"), Ok(AnnotationSpec::ResultBranch(s("a"), s("b"))));
    assert_eq!(classify("(1, 2, 3, 4,)"), Ok(AnnotationSpec::ResultBranch(s("1"), s("2"))));
}

#[test]
fn short_tuple_is_malformed() {
    assert_eq!(classify("(a,)"), Err(TransformError::MalformedTuple(s("(a,)"))));
    assert_eq!(classify("()"), Err(TransformError::MalformedTuple(s("()"))));
}

#[test]
fn parenthesized_expression_is_a_constant() {
    assert_eq!(classify("(a)"), Ok(AnnotationSpec::ConstantExpression(s("(a)"))));
}

#[test]
fn call_is_a_constant_expression() {
    assert_eq!(
        classify("Weight::zero()"),
        Ok(AnnotationSpec::ConstantExpression(s("Weight :: zero ()")))
    );
    assert_eq!(
        classify("Weight::from_parts(10,10)"),
        Ok(AnnotationSpec::ConstantExpression(s("Weight :: from_parts (10 , 10)")))
    );
}

#[test]
fn path_of_two_segments_is_no_identifier() {
    assert_eq!(classify("weights::READ"), Ok(AnnotationSpec::ConstantExpression(s("weights :: READ"))));
}

#[test]
fn keyword_is_no_delegate() {
    assert_eq!(classify("self"), Ok(AnnotationSpec::ConstantExpression(s("self"))));
}

#[test]
fn text_of_no_shape_is_unparsable() {
    assert_eq!(classify("1 +"), Err(TransformError::UnparsableAnnotation(s("1 +"))));
    assert_eq!(classify(""), Err(TransformError::UnparsableAnnotation(s(""))));
    assert_eq!(classify("fn"), Err(TransformError::UnparsableAnnotation(s("fn"))));
    assert_eq!(classify("a b"), Err(TransformError::UnparsableAnnotation(s("a b"))));
    assert_eq!(classify("(a, b"), Err(TransformError::UnparsableAnnotation(s("(a, b"))));
}

#[test]
fn identifier_wins_over_expression() {
    let r = classify_parsed("w", Some(s("w")), None, Some(s("w")));
    assert_eq!(r, Ok(AnnotationSpec::DelegateFunction(s("w"))));
    let r = classify_parsed("w", Some(s("w")), Some(vec![s("a"), s("b")]), Some(s("w")));
    assert_eq!(r, Ok(AnnotationSpec::DelegateFunction(s("w"))));
}

#[test]
fn tuple_wins_over_expression() {
    let r = classify_parsed("(a, b)", None, Some(vec![s("a"), s("b")]), Some(s("(a , b)")));
    assert_eq!(r, Ok(AnnotationSpec::ResultBranch(s("a"), s("b"))));
}

#[test]
fn malformed_tuple_does_not_fall_back_to_expression() {
    let r = classify_parsed("(a,)", None, Some(vec![s("a")]), Some(s("(a ,)")));
    assert_eq!(r, Err(TransformError::MalformedTuple(s("(a,)"))));
    let r = classify_parsed("()", None, Some(vec![]), Some(s("()")));
    assert_eq!(r, Err(TransformError::MalformedTuple(s("()"))));
}

#[test]
fn expression_alone_is_a_constant() {
    let r = classify_parsed("1 + 2", None, None, Some(s("1 + 2")));
    assert_eq!(r, Ok(AnnotationSpec::ConstantExpression(s("1 + 2"))));
}

#[test]
fn nothing_read_is_unparsable() {
    let r = classify_parsed("??", None, None, None);
    assert_eq!(r, Err(TransformError::UnparsableAnnotation(s("??"))));
}

#[test]
fn error_messages_carry_the_text() {
    assert_eq!(
        TransformError::UnparsableFunction(s("struct S;")).message(),
        "failed to parse input as a function: struct S;"
    );
    assert_eq!(
        TransformError::UnparsableAnnotation(s("1 +")).message(),
        "failed to parse weight annotation: 1 +"
    );
    assert_eq!(
        TransformError::MalformedTuple(s("(a,)")).message(),
        "weight annotation tuple needs two elements: (a,)"
    );
}
