use vstd::prelude::*;

use crate::token::product;

verus! {

/// A shape with a zero dimension holds no element.
proof fn lemma_product_zero(s: Seq<usize>, k: int)
    requires
        0 <= k < s.len(),
        s[k] == 0,
    ensures
        product(s) == 0,
    decreases s.len(),
{
    if k < s.len() - 1 {
        assert(s.drop_last()[k] == 0);
        lemma_product_zero(s.drop_last(), k);
    }
    assert(product(s) == product(s.drop_last()) * s.last());
}

/// A shape whose dimensions are all positive holds at least one element, and
/// no fewer than any of its prefixes.
proof fn lemma_product_prefix(s: Seq<usize>, j: int)
    requires
        0 <= j <= s.len(),
        forall|i: int| 0 <= i < s.len() ==> s[i] >= 1,
    ensures
        1 <= product(s.subrange(0, j)) <= product(s),
    decreases s.len(),
{
    if j == s.len() {
        assert(s.subrange(0, j) =~= s);
        if s.len() > 0 {
            lemma_product_prefix(s.drop_last(), j - 1);
            assert(s.drop_last().subrange(0, j - 1) =~= s.drop_last());
            let p = product(s.drop_last());
            let d = s.last() as int;
            assert(1 <= p * d) by (nonlinear_arith)
                requires
                    1 <= p,
                    1 <= d,
            ;
        }
    } else {
        lemma_product_prefix(s.drop_last(), j);
        assert(s.drop_last().subrange(0, j) =~= s.subrange(0, j));
        let p = product(s.drop_last());
        let d = s.last() as int;
        assert(p <= p * d) by (nonlinear_arith)
            requires
                1 <= p,
                1 <= d,
        ;
    }
}

/// Whether an array of `len` elements has the shape `dims`, that is, whether
/// the dimensions multiply to `len`.
pub fn shape_matches(dims: &[usize], len: usize) -> (r: bool)
    ensures
        r == (product(dims@) == len),
{
    let mut i: usize = 0;
    while i < dims.len()
        invariant
            i <= dims@.len(),
            forall|k: int| 0 <= k < i ==> dims@[k] >= 1,
        decreases dims.len() - i,
    {
        if dims[i] == 0 {
            proof {
                lemma_product_zero(dims@, i as int);
            }
            return len == 0;
        }
        i = i + 1;
    }
    let mut acc: usize = 1;
    let mut j: usize = 0;
    while j < dims.len()
        invariant
            j <= dims@.len(),
            forall|k: int| 0 <= k < dims@.len() ==> dims@[k] >= 1,
            acc == product(dims@.subrange(0, j as int)),
        decreases dims.len() - j,
    {
        assert(dims@.subrange(0, j + 1 as int).drop_last() =~= dims@.subrange(0, j as int));
        match acc.checked_mul(dims[j]) {
            Some(p) => {
                acc = p;
            },
            None => {
                proof {
                    lemma_product_prefix(dims@, j + 1);
                }
                return false;
            },
        }
        j = j + 1;
    }
    assert(dims@.subrange(0, j as int) =~= dims@);
    acc == len
}

} // verus!
