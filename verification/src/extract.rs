//! The parameter extractor: the simple names of a parameter list.

use crate::model::{parameters_of, texts_of, Parameter, ParameterModel};
use vstd::prelude::*;

verus! {

/// The names of the parameters that are bound by a simple name, in declaration
/// order. A parameter with any other binding pattern contributes nothing.
pub open spec fn extracted(params: Seq<ParameterModel>) -> Seq<Seq<char>>
    decreases params.len(),
{
    if params.len() == 0 {
        Seq::empty()
    } else {
        let rest = extracted(params.drop_last());
        match params.last().name {
            Some(name) => rest.push(name),
            None => rest,
        }
    }
}

/// Collects the simple parameter names in declaration order. Parameters with
/// another binding pattern are skipped; names are neither renamed nor
/// deduplicated.
pub fn extract_identifiers(params: &Vec<Parameter>) -> (names: Vec<String>)
    ensures
        texts_of(names@) == extracted(parameters_of(params@)),
{
    let mut names: Vec<String> = Vec::new();
    let mut i: usize = 0;
    assert(parameters_of(params@).take(0) =~= Seq::empty());
    assert(texts_of(names@) =~= Seq::empty());
    while i < params.len()
        invariant
            i <= params.len(),
            texts_of(names@) == extracted(parameters_of(params@).take(i as int)),
        decreases params.len() - i,
    {
        let ghost before = names@;
        let ghost prefix = parameters_of(params@).take(i as int);
        let ghost next = parameters_of(params@).take(i + 1);
        assert(next.drop_last() =~= prefix);
        assert(next.last() == params@[i as int]@);
        match &params[i].name {
            Some(name) => {
                let copy = name.clone();
                names.push(copy);
                assert(texts_of(names@) =~= texts_of(before).push(name@));
            },
            None => {},
        }
        i += 1;
    }
    assert(parameters_of(params@).take(i as int) =~= parameters_of(params@));
    names
}

/// The extractor reads one parameter as its name, if it has one.
pub proof fn extracted_single(p: ParameterModel)
    ensures
        extracted(seq![p]) == match p.name {
            Some(name) => seq![name],
            None => Seq::<Seq<char>>::empty(),
        },
{
    assert(seq![p].drop_last() =~= Seq::<ParameterModel>::empty());
    assert(extracted(Seq::<ParameterModel>::empty()) =~= Seq::<Seq<char>>::empty());
    reveal_with_fuel(extracted, 2);
    assert(extracted(seq![p]) =~= match p.name {
        Some(name) => seq![name],
        None => Seq::<Seq<char>>::empty(),
    });
}

/// The extractor keeps declaration order: the names of a list are the names of
/// any front part of it followed by the names of the rest.
pub proof fn extracted_concat(front: Seq<ParameterModel>, back: Seq<ParameterModel>)
    ensures
        extracted(front + back) == extracted(front) + extracted(back),
    decreases back.len(),
{
    if back.len() == 0 {
        assert(front + back =~= front);
        assert(extracted(front) + extracted(back) =~= extracted(front));
    } else {
        assert((front + back).drop_last() =~= front + back.drop_last());
        assert((front + back).last() == back.last());
        extracted_concat(front, back.drop_last());
        assert(extracted(front + back) =~= extracted(front) + extracted(back));
    }
}

/// No more names come out than parameters went in.
pub proof fn extracted_len_bound(params: Seq<ParameterModel>)
    ensures
        extracted(params).len() <= params.len(),
    decreases params.len(),
{
    if params.len() > 0 {
        extracted_len_bound(params.drop_last());
    }
}

/// A parameter without a simple name is left out: the names of a list are
/// those of the list without that parameter.
pub proof fn pattern_parameter_is_omitted(params: Seq<ParameterModel>, i: int)
    requires
        0 <= i < params.len(),
        params[i].name is None,
    ensures
        extracted(params) == extracted(params.remove(i)),
{
    let front = params.take(i);
    let back = params.skip(i + 1);
    assert(params =~= front + seq![params[i]] + back);
    assert(params.remove(i) =~= front + back);
    extracted_concat(front + seq![params[i]], back);
    extracted_concat(front, seq![params[i]]);
    extracted_single(params[i]);
    extracted_concat(front, back);
    assert(extracted(front) + Seq::<Seq<char>>::empty() =~= extracted(front));
}

} // verus!
