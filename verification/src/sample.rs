//! Three small functions with their weights, and the companion of each written
//! out by hand: one for each shape of annotation.

use vstd::prelude::*;

verus! {

/// A cost in two dimensions: computation time and proof size.
#[derive(Debug, Clone, Copy, PartialEq, Eq, Structural)]
pub struct Weight {
    pub ref_time: u64,
    pub proof_size: u64,
}

impl Weight {
    /// The weight that costs nothing.
    pub open spec fn spec_zero() -> Weight {
        Weight { ref_time: 0, proof_size: 0 }
    }

    /// The weight with the given parts.
    pub open spec fn spec_from_parts(ref_time: u64, proof_size: u64) -> Weight {
        Weight { ref_time, proof_size }
    }

    /// The weight that costs nothing.
    #[verifier::when_used_as_spec(spec_zero)]
    pub fn zero() -> (w: Weight)
        ensures
            w == Weight::spec_zero(),
    {
        Weight { ref_time: 0, proof_size: 0 }
    }

    /// The weight with the given parts.
    #[verifier::when_used_as_spec(spec_from_parts)]
    pub fn from_parts(ref_time: u64, proof_size: u64) -> (w: Weight)
        ensures
            w == Weight::spec_from_parts(ref_time, proof_size),
    {
        Weight { ref_time, proof_size }
    }
}

/// The square of `i`, which has to fit.
pub fn do_something(i: u32) -> (r: u32)
    requires
        i * i <= u32::MAX,
    ensures
        r == i * i,
{
    i * i
}

/// The weight of [`do_something_else`]: cheaper where the first argument is 0.
pub fn weight_for_do_something_else(i: u32, _j: u32) -> (w: Weight)
    ensures
        w == if i == 0 {
            Weight::from_parts(10, 10)
        } else {
            Weight::from_parts(20, 20)
        },
{
    if i == 0 {
        Weight::from_parts(10, 10)
    } else {
        Weight::from_parts(20, 20)
    }
}

/// The sum where `i` is 0, the quotient otherwise; the divisor is then not 0.
pub fn do_something_else(i: u32, j: u32) -> (r: u32)
    requires
        i != 0 ==> j != 0,
    ensures
        r == if i == 0 {
            j as int
        } else {
            i as int / j as int
        },
{
    if i == 0 {
        i + j
    } else {
        i / j
    }
}

/// Succeeds on 0 and fails on every other input.
pub fn ok_something(i: u32) -> (r: Result<(), ()>)
    ensures
        r is Ok <==> i == 0,
{
    if i == 0 {
        Ok(())
    } else {
        Err(())
    }
}

/// The companion of [`do_something`] under the constant annotation
/// `Weight::zero()`: the body runs, and the weight is zero whatever `i` is.
pub fn weighted_do_something(i: u32) -> (w: Weight)
    requires
        i * i <= u32::MAX,
    ensures
        w == Weight::zero(),
{
    let _body: u32 = do_something(i);
    Weight::zero()
}

/// The companion of [`do_something_else`] under the delegate annotation
/// `weight_for_do_something_else`: the body runs, and the weight is what the
/// delegate returns on the same arguments.
pub fn weighted_do_something_else(i: u32, j: u32) -> (w: Weight)
    requires
        i != 0 ==> j != 0,
    ensures
        w == if i == 0 {
            Weight::from_parts(10, 10)
        } else {
            Weight::from_parts(20, 20)
        },
{
    let _body: u32 = do_something_else(i, j);
    weight_for_do_something_else(i, j)
}

/// The companion of [`ok_something`] under the tuple annotation
/// `(Weight::zero(), Weight::from_parts(10, 10))`: zero on success, the second
/// weight on failure.
pub fn weighted_ok_something(i: u32) -> (w: Weight)
    ensures
        w == if i == 0 {
            Weight::zero()
        } else {
            Weight::from_parts(10, 10)
        },
{
    if let Ok(_i) = ok_something(i) {
        Weight::zero()
    } else {
        Weight::from_parts(10, 10)
    }
}

} // verus!
