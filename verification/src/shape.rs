//! Shapes of concrete tensors: how many values a tensor of a shape holds,
//! and how a shape is written.

use crate::text::{bracket_strings, bracketed, decimal, lemma_views_push, render_int, views};
use vstd::prelude::*;

verus! {

/// The dimension sizes as integers.
pub open spec fn sizes(dims: Seq<i64>) -> Seq<int> {
    Seq::new(dims.len(), |i: int| dims[i] as int)
}

/// Whether every dimension has a size: none is negative.
pub open spec fn is_concrete(dims: Seq<int>) -> bool {
    forall|i: int| 0 <= i < dims.len() ==> dims[i] >= 0
}

/// The number of values in a tensor of the given shape: the product of its
/// dimension sizes, which is one for a shape without dimensions.
pub open spec fn element_count(dims: Seq<int>) -> int
    decreases dims.len(),
{
    if dims.len() == 0 {
        1
    } else {
        element_count(dims.drop_last()) * dims.last()
    }
}

/// The dimension sizes in decimal notation.
pub open spec fn size_texts(dims: Seq<int>) -> Seq<Seq<char>> {
    Seq::new(dims.len(), |i: int| decimal(dims[i]))
}

/// A shape is written as the bracketed list of its dimension sizes.
pub open spec fn shape_text(dims: Seq<int>) -> Seq<char> {
    bracketed(size_texts(dims))
}

/// The count of a shape with one more dimension is the count without it
/// times the size of that dimension.
pub proof fn lemma_count_push(dims: Seq<int>, size: int)
    ensures
        element_count(dims.push(size)) == element_count(dims) * size,
{
    assert(dims.push(size).drop_last() =~= dims);
}

/// A concrete shape with a dimension of size zero holds no value.
pub proof fn lemma_count_zero(dims: Seq<int>, at: int)
    requires
        0 <= at < dims.len(),
        dims[at] == 0,
    ensures
        element_count(dims) == 0,
    decreases dims.len(),
{
    if at == dims.len() - 1 {
        assert(element_count(dims.drop_last()) * 0 == 0) by (nonlinear_arith);
    } else {
        lemma_count_zero(dims.drop_last(), at);
        assert(0 * dims.last() == 0) by (nonlinear_arith);
    }
}

/// Where every dimension holds at least one value, a shape holds at least
/// as many values as any of its leading parts, and at least one.
pub proof fn lemma_count_grows(dims: Seq<int>, upto: int)
    requires
        0 <= upto <= dims.len(),
        forall|i: int| 0 <= i < dims.len() ==> dims[i] >= 1,
    ensures
        1 <= element_count(dims.take(upto)) <= element_count(dims),
    decreases dims.len() - upto,
{
    if upto == dims.len() {
        assert(dims.take(upto) =~= dims);
        lemma_count_positive(dims);
    } else {
        lemma_count_grows(dims, upto + 1);
        assert(dims.take(upto + 1) =~= dims.take(upto).push(dims[upto]));
        lemma_count_push(dims.take(upto), dims[upto]);
        lemma_count_positive(dims.take(upto));
        let before = element_count(dims.take(upto));
        let size = dims[upto];
        assert(before <= before * size) by (nonlinear_arith)
            requires
                before >= 1,
                size >= 1,
        ;
    }
}

/// Where every dimension holds at least one value, so does the shape.
pub proof fn lemma_count_positive(dims: Seq<int>)
    requires
        forall|i: int| 0 <= i < dims.len() ==> dims[i] >= 1,
    ensures
        element_count(dims) >= 1,
    decreases dims.len(),
{
    if dims.len() > 0 {
        lemma_count_positive(dims.drop_last());
        let before = element_count(dims.drop_last());
        let size = dims.last();
        assert(before * size >= 1) by (nonlinear_arith)
            requires
                before >= 1,
                size >= 1,
        ;
    }
}

/// Counts the values of a tensor of the given shape. There is a count
/// exactly where no dimension is negative and the product of the sizes
/// fits the machine's word, and it is that product.
pub fn count_elements(dims: &Vec<i64>) -> (count: Option<usize>)
    ensures
        count is Some <==> is_concrete(sizes(dims@)) && element_count(sizes(dims@))
            <= usize::MAX,
        count matches Some(n) ==> n == element_count(sizes(dims@)),
{
    let ghost shape = sizes(dims@);
    let mut has_zero = false;
    let mut i: usize = 0;
    while i < dims.len()
        invariant
            i <= dims.len(),
            shape == sizes(dims@),
            forall|k: int| 0 <= k < i ==> shape[k] >= 0,
            has_zero <==> exists|k: int| 0 <= k < i && shape[k] == 0,
        decreases dims.len() - i,
    {
        if dims[i] < 0 {
            assert(shape[i as int] < 0);
            return None;
        }
        if dims[i] == 0 {
            assert(shape[i as int] == 0);
            has_zero = true;
        }
        i += 1;
    }
    if has_zero {
        proof {
            let at = choose|k: int| 0 <= k < dims.len() && shape[k] == 0;
            lemma_count_zero(shape, at);
        }
        return Some(0);
    }
    assert(forall|k: int| 0 <= k < shape.len() ==> shape[k] >= 1);
    let mut product: u64 = 1;
    let mut j: usize = 0;
    assert(shape.take(0) =~= Seq::<int>::empty());
    while j < dims.len()
        invariant
            j <= dims.len(),
            shape == sizes(dims@),
            forall|k: int| 0 <= k < shape.len() ==> shape[k] >= 1,
            product == element_count(shape.take(j as int)),
        decreases dims.len() - j,
    {
        proof {
            assert(shape.take(j as int + 1) =~= shape.take(j as int).push(shape[j as int]));
            lemma_count_push(shape.take(j as int), shape[j as int]);
            lemma_count_grows(shape, j as int + 1);
        }
        match product.checked_mul(dims[j] as u64) {
            Some(next) => {
                product = next;
            },
            None => {
                return None;
            },
        }
        j += 1;
    }
    assert(shape.take(dims.len() as int) =~= shape);
    if product > usize::MAX as u64 {
        None
    } else {
        Some(product as usize)
    }
}

/// Writes a shape as the bracketed list of its dimension sizes.
pub fn render_shape(dims: &Vec<i64>) -> (s: String)
    ensures
        s@ == shape_text(sizes(dims@)),
{
    let mut parts: Vec<String> = Vec::new();
    let mut i: usize = 0;
    assert(views(parts@) =~= size_texts(sizes(dims@).take(0)));
    while i < dims.len()
        invariant
            i <= dims.len(),
            views(parts@) == size_texts(sizes(dims@).take(i as int)),
        decreases dims.len() - i,
    {
        let part = render_int(dims[i]);
        proof {
            lemma_views_push(parts@, part);
            assert(size_texts(sizes(dims@).take(i as int + 1)) =~= size_texts(
                sizes(dims@).take(i as int),
            ).push(decimal(dims@[i as int] as int)));
        }
        parts.push(part);
        i += 1;
    }
    assert(sizes(dims@).take(dims.len() as int) =~= sizes(dims@));
    bracket_strings(&parts)
}

} // verus!
