use vstd::prelude::*;
use crate::scalar::{zero, Scalar};

verus! {

/// The sum of the products `a[i] * b[i]` for `i` below `n`, added up from
/// zero in the order of the indices.
pub open spec fn dot_prefix<S: Scalar>(a: Seq<S>, b: Seq<S>, n: nat) -> S
    decreases n,
{
    if n == 0 {
        zero::<S>()
    } else {
        dot_prefix(a, b, (n - 1) as nat).add_spec(a[n - 1].mul_spec(b[n - 1]))
    }
}

/// The dot product of two vectors of one length.
pub open spec fn dot<S: Scalar>(a: Seq<S>, b: Seq<S>) -> S {
    dot_prefix(a, b, a.len())
}

/// The sum of `a[lo], .., a[hi - 1]`, added up from zero in that order.
pub open spec fn sum_range<S: Scalar>(a: Seq<S>, lo: int, hi: int) -> S
    decreases hi - lo,
{
    if hi <= lo {
        zero::<S>()
    } else {
        sum_range(a, lo, hi - 1).add_spec(a[hi - 1])
    }
}

/// The vector `base - direction * rate`, component by component.
pub open spec fn descend<S: Scalar>(base: Seq<S>, direction: Seq<S>, rate: S) -> Seq<S> {
    Seq::new(base.len(), |i: int| base[i].sub_spec(direction[i].mul_spec(rate)))
}

/// Computes the dot product of two vectors of one length.
pub(crate) fn dot_product<S: Scalar>(a: &Vec<S>, b: &Vec<S>) -> (r: S)
    requires
        a.len() == b.len(),
    ensures
        r == dot(a@, b@),
{
    let mut acc: S = S::from_int(0);
    let mut i: usize = 0;
    while i < a.len()
        invariant
            i <= a.len(),
            a.len() == b.len(),
            acc == dot_prefix(a@, b@, i as nat),
        decreases a.len() - i,
    {
        acc = acc.add(a[i].mul(b[i]));
        i += 1;
    }
    acc
}

/// Adds up the components of `a` from index `from` on.
pub(crate) fn sum_from<S: Scalar>(a: &Vec<S>, from: usize) -> (r: S)
    ensures
        r == sum_range(a@, from as int, a.len() as int),
{
    let mut acc: S = S::from_int(0);
    if from >= a.len() {
        return acc;
    }
    let mut i: usize = from;
    while i < a.len()
        invariant
            from <= i <= a.len(),
            acc == sum_range(a@, from as int, i as int),
        decreases a.len() - i,
    {
        acc = acc.add(a[i]);
        i += 1;
    }
    acc
}

/// Steps from `base` against `direction`: `base - direction * rate`.
pub(crate) fn descend_step<S: Scalar>(base: &Vec<S>, direction: &Vec<S>, rate: S) -> (r: Vec<S>)
    requires
        base.len() == direction.len(),
    ensures
        r@ == descend(base@, direction@, rate),
{
    let mut out: Vec<S> = Vec::with_capacity(base.len());
    let mut i: usize = 0;
    while i < base.len()
        invariant
            i <= base.len(),
            base.len() == direction.len(),
            out@.len() == i,
            forall|j: int| 0 <= j < i ==> out@[j] == base@[j].sub_spec(direction@[j].mul_spec(rate)),
        decreases base.len() - i,
    {
        out.push(base[i].sub(direction[i].mul(rate)));
        i += 1;
    }
    assert(out@ =~= descend(base@, direction@, rate));
    out
}

} // verus!
