//! Finite and infinite sets, and iteration over the elements of a finite set.
use vstd::prelude::*;
use crate::data_hold::DataHold;
use crate::data_mix::DataMix;
use crate::data_traits::DataContainer;
use crate::shape::{lemma_product_split_first, shape_product};
use crate::types::Fe2O3SizeType;

verus! {

/// A set, of which only its size (its cardinality) can be asked.
pub trait AbstractSet {
    /// The set is in a state where its cardinality can be read.
    spec fn set_wf(&self) -> bool;

    /// The number of elements of the set.
    spec fn spec_cardinality(&self) -> Fe2O3SizeType;

    /// The number of elements of the set.
    fn cardinality(&self) -> (r: Fe2O3SizeType)
        requires
            self.set_wf(),
        ensures
            r == self.spec_cardinality(),
    ;
}

/// An infinite set. It holds no members, and its cardinality is infinity.
pub struct InfiniteSet {}

impl AbstractSet for InfiniteSet {
    open spec fn set_wf(&self) -> bool {
        true
    }

    open spec fn spec_cardinality(&self) -> Fe2O3SizeType {
        Fe2O3SizeType::Infinity
    }

    fn cardinality(&self) -> (r: Fe2O3SizeType) {
        Fe2O3SizeType::Infinity
    }
}

/// The usual sets of numbers, or the empty one.
pub enum NumberSet {
    Naturals(InfiniteSet),
    Integers(InfiniteSet),
    Rationals(InfiniteSet),
    Reals(InfiniteSet),
    EmptyNumberSet,
}

/// A finite set whose elements are stored in a shaped array: the leading
/// dimension counts the elements, the trailing dimensions give the shape of
/// one element.
pub struct FiniteSet<'a, T: Copy> {
    pub elements: DataMix<'a, T>,
}

/// Shape of one element of a set stored under `shape`: the trailing
/// dimensions, or `[1]` where an element is a single entry.
pub open spec fn element_shape_of(shape: Seq<usize>) -> Seq<usize> {
    if shape_product(shape.drop_first()) == 1 {
        seq![1usize]
    } else {
        shape.drop_first()
    }
}

impl<'a, T: Copy> FiniteSet<'a, T> {
    /// The number of elements: the leading dimension.
    pub open spec fn size(&self) -> nat {
        self.elements.spec_shape()[0] as nat
    }

    /// The number of entries that one element holds.
    pub open spec fn element_size(&self) -> nat {
        shape_product(self.elements.spec_shape().drop_first())
    }

    /// The shape of one element.
    pub open spec fn element_shape(&self) -> Seq<usize> {
        element_shape_of(self.elements.spec_shape())
    }

    /// The entries of the element at `handle`: a contiguous slice of the buffer.
    pub open spec fn element_data(&self, handle: nat) -> Seq<T> {
        self.elements.spec_data().subrange(
            (handle * self.element_size()) as int,
            ((handle + 1) * self.element_size()) as int,
        )
    }

    /// `r` is the answer to a lookup of `handle`: absent exactly where `handle`
    /// is not below the cardinality, else a copy of that element's entries
    /// under the element shape.
    pub open spec fn answers_lookup(&self, handle: usize, r: Option<DataHold<T>>) -> bool {
        &&& r is None <==> handle >= self.size()
        &&& r matches Some(e) ==> {
            &&& e.spec_data() == self.element_data(handle as nat)
            &&& e.spec_shape() == self.element_shape()
        }
    }

    /// Returns an iterator over the elements of the set, in ascending handle order.
    pub fn iter(&'a self) -> (r: FiniteSetIterator<'a, T>)
        requires
            self.set_wf(),
        ensures
            r.iter_wf(),
            r.source() == *self,
            r.position() == 0,
    {
        FiniteSetIterator::new(self)
    }

    /// Returns a copy of the element at `handle`, or `None` where `handle` is
    /// not below the cardinality.
    pub fn get_element(&self, handle: usize) -> (r: Option<DataHold<T>>)
        requires
            self.set_wf(),
        ensures
            self.answers_lookup(handle, r),
    {
        let dims = self.elements.dimensions();
        let card = dims[0];
        if handle >= card {
            return None;
        }
        let element_size = self.elements.len() / card;
        proof {
            self.lemma_element_layout(handle as nat);
        }
        let el_shape = element_shape_from(dims, element_size);
        let data = copy_range(self.elements.as_slice(), element_size * handle, element_size);
        Some(DataHold::new(data, el_shape))
    }

    /// Elements tile the buffer: each one lies inside it, and its size is the
    /// buffer length divided by the cardinality.
    proof fn lemma_element_layout(&self, handle: nat)
        requires
            self.set_wf(),
            handle < self.size(),
        ensures
            self.element_size() == self.elements.spec_data().len() / self.size(),
            self.element_size() * handle + self.element_size() <= self.elements.spec_data().len(),
            self.element_size() * handle == handle * self.element_size(),
            self.element_size() * handle + self.element_size() == (handle + 1) * self.element_size(),
            shape_product(self.element_shape()) == self.element_size(),
    {
        let shape = self.elements.spec_shape();
        lemma_product_split_first(shape);
        let c = self.size() as int;
        let e = self.element_size() as int;
        let h = handle as int;
        vstd::arithmetic::div_mod::lemma_div_multiples_vanish(e, c);
        assert(c * e == e * c) by (nonlinear_arith);
        assert((h + 1) * e <= c * e && e * h + e == (h + 1) * e && e * h == h * e) by (nonlinear_arith)
            requires
                0 <= h < c,
                0 <= e,
        ;
        if e == 1 {
            let one = seq![1usize];
            assert(one.drop_last().len() == 0);
            assert(shape_product(one.drop_last()) == 1);
            assert(one.last() == 1);
            assert(shape_product(one) == 1);
        }
    }
}

impl<'a, T: Copy> AbstractSet for FiniteSet<'a, T> {
    /// The backing array is coherent and has a leading dimension.
    open spec fn set_wf(&self) -> bool {
        &&& self.elements.coherent()
        &&& self.elements.spec_shape().len() >= 1
    }

    open spec fn spec_cardinality(&self) -> Fe2O3SizeType {
        Fe2O3SizeType::Finite(self.elements.spec_shape()[0])
    }

    fn cardinality(&self) -> (r: Fe2O3SizeType) {
        Fe2O3SizeType::Finite(self.elements.dimensions()[0])
    }
}

/// The shape of one element of a set stored under `dims`, given the number of
/// entries per element.
fn element_shape_from(dims: &Vec<usize>, element_size: usize) -> (r: Vec<usize>)
    requires
        dims@.len() >= 1,
        element_size == shape_product(dims@.drop_first()),
    ensures
        r@ == element_shape_of(dims@),
{
    if element_size == 1 {
        return vec![1];
    }
    let mut shape: Vec<usize> = Vec::new();
    let mut k: usize = 1;
    while k < dims.len()
        invariant
            1 <= k <= dims@.len(),
            shape@ == dims@.subrange(1, k as int),
        decreases dims@.len() - k,
    {
        shape.push(dims[k]);
        k = k + 1;
        proof {
            assert(shape@ =~= dims@.subrange(1, k as int));
        }
    }
    proof {
        assert(shape@ =~= dims@.drop_first());
    }
    shape
}

/// Copies the `len` entries of `data` that start at `start`.
fn copy_range<T: Copy>(data: &[T], start: usize, len: usize) -> (r: Vec<T>)
    requires
        start + len <= data@.len(),
    ensures
        r@ == data@.subrange(start as int, start + len),
{
    let mut out: Vec<T> = Vec::new();
    let mut k: usize = 0;
    proof {
        assert(data@.len() == data.len());
    }
    while k < len
        invariant
            start + len <= data@.len(),
            data@.len() <= usize::MAX,
            k <= len,
            out@ == data@.subrange(start as int, start + k),
        decreases len - k,
    {
        out.push(data[start + k]);
        k = k + 1;
        proof {
            assert(out@ =~= data@.subrange(start as int, start + k));
        }
    }
    out
}

/// A forward-only iterator over the elements of a `FiniteSet`, in ascending
/// handle order. It is exhausted after `cardinality` elements.
pub struct FiniteSetIterator<'a, T: Copy> {
    /// The set iterated over.
    set: &'a FiniteSet<'a, T>,
    /// The shape of one element.
    element_shape: Vec<usize>,
    /// The number of entries of one element.
    element_size: usize,
    /// The handle of the next element.
    handle: usize,
    /// The cardinality of the set.
    n_elements: usize,
}

impl<'a, T: Copy> FiniteSetIterator<'a, T> {
    /// The set iterated over.
    pub closed spec fn source(&self) -> FiniteSet<'a, T> {
        *self.set
    }

    /// The handle of the next element.
    pub closed spec fn position(&self) -> nat {
        self.handle as nat
    }

    /// The cached layout agrees with the set, and the position is at most the
    /// cardinality.
    pub closed spec fn iter_wf(&self) -> bool {
        &&& self.set.set_wf()
        &&& self.n_elements == self.set.size()
        &&& self.n_elements > 0 ==> self.element_size == self.set.element_size()
        &&& self.n_elements > 0 ==> self.element_shape@ == self.set.element_shape()
        &&& self.handle <= self.n_elements
        &&& self.set.elements.spec_data().len() <= usize::MAX
    }

    /// Starts at the first element of `new_set`.
    pub fn new(new_set: &'a FiniteSet<'a, T>) -> (r: Self)
        requires
            new_set.set_wf(),
        ensures
            r.iter_wf(),
            r.source() == *new_set,
            r.position() == 0,
    {
        let dims = new_set.elements.dimensions();
        let n_el = dims[0];
        let total = new_set.elements.len();
        let mut el_size: usize = 0;
        let mut el_shape: Vec<usize> = Vec::new();
        if n_el > 0 {
            proof {
                new_set.lemma_element_layout(0);
            }
            el_size = total / n_el;
            el_shape = element_shape_from(dims, el_size);
        }
        FiniteSetIterator {
            set: new_set,
            element_shape: el_shape,
            element_size: el_size,
            handle: 0,
            n_elements: n_el,
        }
    }

    /// Returns a copy of the next element and moves past it, or `None` once
    /// every element has been returned.
    pub fn next(&mut self) -> (r: Option<DataHold<T>>)
        requires
            old(self).iter_wf(),
        ensures
            final(self).iter_wf(),
            final(self).source() == old(self).source(),
            old(self).position() < old(self).source().size() ==> {
                &&& final(self).position() == old(self).position() + 1
                &&& r matches Some(e) && e.spec_data() == old(self).source().element_data(
                    old(self).position(),
                ) && e.spec_shape() == old(self).source().element_shape()
            },
            old(self).position() >= old(self).source().size() ==> {
                &&& final(self).position() == old(self).position()
                &&& r is None
            },
    {
        if self.handle >= self.n_elements {
            return None;
        }
        proof {
            self.set.lemma_element_layout(self.handle as nat);
            assert(self.n_elements > 0);
            assert(self.element_size == self.set.element_size());
        }
        let start = self.element_size * self.handle;
        let data = copy_range(self.set.elements.as_slice(), start, self.element_size);
        let shape = copy_range(self.element_shape.as_slice(), 0, self.element_shape.len());
        proof {
            assert(shape@ =~= self.element_shape@);
        }
        let res = DataHold::new(data, shape);
        self.handle = self.handle + 1;
        Some(res)
    }
}

} // verus!
