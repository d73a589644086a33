//! Shapes, multi-indices and the row-major flat-index arithmetic shared by
//! every array realization.
use vstd::prelude::*;
use vstd::arithmetic::div_mod::lemma_fundamental_div_mod_converse;

verus! {

/// Number of entries addressed by a shape: the product of its dimensions.
pub open spec fn shape_product(shape: Seq<usize>) -> nat
    decreases shape.len(),
{
    if shape.len() == 0 {
        1
    } else {
        shape_product(shape.drop_last()) * (shape.last() as nat)
    }
}

/// A multi-index addresses an entry of `shape`: one coordinate per dimension,
/// each below the size of its dimension.
pub open spec fn valid_index(shape: Seq<usize>, index: Seq<usize>) -> bool {
    &&& index.len() == shape.len()
    &&& forall|k: int| 0 <= k < shape.len() ==> #[trigger] index[k] < shape[k]
}

/// Row-major offset of `index` in `shape`, the last dimension varying fastest:
/// `(...((i0) * s1 + i1) * s2 + ...) * s(n-1) + i(n-1)`.
pub open spec fn flat_offset(shape: Seq<usize>, index: Seq<usize>) -> nat
    decreases index.len(),
{
    if index.len() == 0 || shape.len() == 0 {
        0
    } else {
        flat_offset(shape.drop_last(), index.drop_last()) * (shape.last() as nat)
            + (index.last() as nat)
    }
}

/// Every valid multi-index lands inside the buffer that its shape describes.
pub proof fn lemma_flat_offset_bounded(shape: Seq<usize>, index: Seq<usize>)
    requires
        valid_index(shape, index),
    ensures
        flat_offset(shape, index) < shape_product(shape),
    decreases index.len(),
{
    if index.len() > 0 {
        let (s0, i0) = (shape.drop_last(), index.drop_last());
        assert(valid_index(s0, i0)) by {
            assert forall|k: int| 0 <= k < s0.len() implies #[trigger] i0[k] < s0[k] by {
                assert(index[k] < shape[k]);
            }
        }
        lemma_flat_offset_bounded(s0, i0);
        let a = flat_offset(s0, i0) as int;
        let p = shape_product(s0) as int;
        let d = shape.last() as int;
        let b = index.last() as int;
        assert(index[index.len() - 1] < shape[shape.len() - 1]);
        assert(a * d + b < p * d) by (nonlinear_arith)
            requires
                0 <= a < p,
                0 <= b < d,
        ;
    }
}

/// Two valid multi-indices of one shape with the same offset are the same index.
pub proof fn lemma_flat_offset_injective(shape: Seq<usize>, i: Seq<usize>, j: Seq<usize>)
    requires
        valid_index(shape, i),
        valid_index(shape, j),
        flat_offset(shape, i) == flat_offset(shape, j),
    ensures
        i == j,
    decreases i.len(),
{
    if i.len() > 0 {
        let s0 = shape.drop_last();
        let (i0, j0) = (i.drop_last(), j.drop_last());
        assert(valid_index(s0, i0)) by {
            assert forall|k: int| 0 <= k < s0.len() implies #[trigger] i0[k] < s0[k] by {
                assert(i[k] < shape[k]);
            }
        }
        assert(valid_index(s0, j0)) by {
            assert forall|k: int| 0 <= k < s0.len() implies #[trigger] j0[k] < s0[k] by {
                assert(j[k] < shape[k]);
            }
        }
        let d = shape.last() as int;
        let x = flat_offset(shape, i) as int;
        assert(i[i.len() - 1] < shape[shape.len() - 1]);
        assert(j[j.len() - 1] < shape[shape.len() - 1]);
        lemma_fundamental_div_mod_converse(
            x,
            d,
            flat_offset(s0, i0) as int,
            i.last() as int,
        );
        lemma_fundamental_div_mod_converse(
            x,
            d,
            flat_offset(s0, j0) as int,
            j.last() as int,
        );
        lemma_flat_offset_injective(s0, i0, j0);
        assert(i =~= i0.push(i.last()));
        assert(j =~= j0.push(j.last()));
    }
}

/// The flat index of a valid multi-index is a position of the buffer, and no
/// two distinct valid multi-indices share one.
pub proof fn flat_index_unique_and_bounded(shape: Seq<usize>, i: Seq<usize>, j: Seq<usize>)
    requires
        valid_index(shape, i),
        valid_index(shape, j),
    ensures
        flat_offset(shape, i) < shape_product(shape),
        flat_offset(shape, j) < shape_product(shape),
        flat_offset(shape, i) == flat_offset(shape, j) <==> i == j,
{
    lemma_flat_offset_bounded(shape, i);
    lemma_flat_offset_bounded(shape, j);
    if flat_offset(shape, i) == flat_offset(shape, j) {
        lemma_flat_offset_injective(shape, i, j);
    }
}

/// The product of a prefix of a shape whose dimensions are all positive does
/// not exceed the product of a longer prefix.
proof fn lemma_prefix_product_monotone(shape: Seq<usize>, a: int, b: int)
    requires
        0 <= a <= b <= shape.len(),
        forall|k: int| 0 <= k < shape.len() ==> #[trigger] shape[k] >= 1,
    ensures
        shape_product(shape.take(a)) <= shape_product(shape.take(b)),
    decreases b - a,
{
    if a < b {
        lemma_prefix_product_monotone(shape, a, b - 1);
        assert(shape.take(b).drop_last() =~= shape.take(b - 1));
        let p = shape_product(shape.take(b - 1)) as int;
        let d = shape[b - 1] as int;
        assert(p <= p * d) by (nonlinear_arith)
            requires
                p >= 0,
                d >= 1,
        ;
    }
}

/// Computes the row-major flat index of `index` in `shape`.
pub fn flat_index_in(shape: &Vec<usize>, index: &Vec<usize>) -> (r: usize)
    requires
        valid_index(shape@, index@),
        shape_product(shape@) <= usize::MAX,
    ensures
        r == flat_offset(shape@, index@),
        r < shape_product(shape@),
{
    let n = index.len();
    let mut offset: usize = 0;
    let mut k: usize = 0;
    proof {
        assert forall|m: int| 0 <= m < shape@.len() implies #[trigger] shape@[m] >= 1 by {
            assert(index@[m] < shape@[m]);
        }
        assert(shape@.take(0) =~= Seq::<usize>::empty());
        assert(index@.take(0) =~= Seq::<usize>::empty());
    }
    while k < n
        invariant
            n == index@.len(),
            valid_index(shape@, index@),
            shape_product(shape@) <= usize::MAX,
            forall|m: int| 0 <= m < shape@.len() ==> #[trigger] shape@[m] >= 1,
            k <= n,
            offset == flat_offset(shape@.take(k as int), index@.take(k as int)),
            offset < shape_product(shape@.take(k as int)),
        decreases n - k,
    {
        let ghost s1 = shape@.take(k + 1);
        let ghost i1 = index@.take(k + 1);
        proof {
            assert(s1.drop_last() =~= shape@.take(k as int));
            assert(i1.drop_last() =~= index@.take(k as int));
            assert(index@[k as int] < shape@[k as int]);
            lemma_prefix_product_monotone(shape@, k + 1, shape@.len() as int);
            assert(shape@.take(shape@.len() as int) =~= shape@);
            let p = shape_product(shape@.take(k as int)) as int;
            let d = shape@[k as int] as int;
            let a = offset as int;
            let b = index@[k as int] as int;
            assert(a * d + b < p * d) by (nonlinear_arith)
                requires
                    0 <= a < p,
                    0 <= b < d,
            ;
        }
        offset = offset * shape[k] + index[k];
        k = k + 1;
    }
    proof {
        assert(shape@.take(n as int) =~= shape@);
        assert(index@.take(n as int) =~= index@);
    }
    offset
}

/// A shape with a zero dimension addresses no entry.
proof fn lemma_zero_dimension(shape: Seq<usize>, m: int)
    requires
        0 <= m < shape.len(),
        shape[m] == 0,
    ensures
        shape_product(shape) == 0,
    decreases shape.len(),
{
    if m < shape.len() - 1 {
        let s0 = shape.drop_last();
        assert(s0[m] == 0);
        lemma_zero_dimension(s0, m);
        let d = shape.last() as nat;
        let q = shape_product(s0);
        assert(q * d == 0) by (nonlinear_arith)
            requires
                q == 0,
        ;
    } else {
        assert(shape_product(shape.drop_last()) * 0 == 0);
    }
}

/// Computes the number of entries that `shape` addresses.
pub fn product_of(shape: &Vec<usize>) -> (r: usize)
    requires
        shape_product(shape@) <= usize::MAX,
    ensures
        r == shape_product(shape@),
{
    let n = shape.len();
    let mut k: usize = 0;
    while k < n
        invariant
            n == shape@.len(),
            k <= n,
            forall|m: int| 0 <= m < k ==> #[trigger] shape@[m] >= 1,
        decreases n - k,
    {
        if shape[k] == 0 {
            proof {
                lemma_zero_dimension(shape@, k as int);
            }
            return 0;
        }
        k = k + 1;
    }
    let mut p: usize = 1;
    k = 0;
    proof {
        assert(shape@.take(0) =~= Seq::<usize>::empty());
    }
    while k < n
        invariant
            n == shape@.len(),
            k <= n,
            shape_product(shape@) <= usize::MAX,
            forall|m: int| 0 <= m < n ==> #[trigger] shape@[m] >= 1,
            p == shape_product(shape@.take(k as int)),
        decreases n - k,
    {
        proof {
            lemma_prefix_product_monotone(shape@, k + 1, n as int);
            assert(shape@.take(n as int) =~= shape@);
            assert(shape@.take(k + 1).drop_last() =~= shape@.take(k as int));
        }
        p = p * shape[k];
        k = k + 1;
    }
    proof {
        assert(shape@.take(n as int) =~= shape@);
    }
    p
}

/// The product of a shape is its leading dimension times the product of the
/// trailing ones.
pub proof fn lemma_product_split_first(shape: Seq<usize>)
    requires
        shape.len() >= 1,
    ensures
        shape_product(shape) == (shape[0] as nat) * shape_product(shape.drop_first()),
    decreases shape.len(),
{
    if shape.len() == 1 {
        assert(shape.drop_first().len() == 0);
        assert(shape.drop_last().len() == 0);
        assert(shape.last() == shape[0]);
        assert(shape_product(shape.drop_last()) == 1);
        assert(shape_product(shape.drop_first()) == 1);
        assert(shape_product(shape) == shape_product(shape.drop_last()) * (shape.last() as nat));
        assert(shape_product(shape) == shape[0] as nat);
    } else {
        let s0 = shape.drop_last();
        lemma_product_split_first(s0);
        assert(s0.drop_first() =~= shape.drop_first().drop_last());
        assert(s0[0] == shape[0]);
        let a = shape[0] as nat;
        let p = shape_product(s0.drop_first());
        let d = shape.last() as nat;
        assert((a * p) * d == a * (p * d)) by (nonlinear_arith);
        assert(shape.drop_first().last() == shape.last());
        assert(shape_product(shape.drop_first()) == p * d);
        assert(shape_product(s0) == a * p);
        assert(shape_product(shape) == shape_product(s0) * d);
    }
}

} // verus!
