//! Topology bases: the cells from which a topology is generated, either
//! computed on demand or stored in a finite set.
use vstd::prelude::*;
use crate::data_hold::DataHold;
use crate::sets::{AbstractSet, FiniteSet, FiniteSetIterator};
use crate::types::Fe2O3SizeType;

verus! {

/// A basis of a topology: a minimal collection of cells from which the whole
/// topology follows by union, intersection and subsetting. Only its cells can
/// be retrieved, one handle at a time.
pub trait TopologyBasis {
    /// The type of the handles that a cell holds.
    type SetHandleT: Copy;

    /// The basis is in a state where cells can be retrieved.
    spec fn basis_wf(&self) -> bool;

    /// `r` is an answer that `get_element(handle)` may give.
    spec fn is_cell(&self, handle: usize, r: Option<DataHold<Self::SetHandleT>>) -> bool;

    /// Returns the cell at `handle`, or `None` where there is none.
    fn get_element(&self, handle: usize) -> (r: Option<DataHold<Self::SetHandleT>>)
        requires
            self.basis_wf(),
        ensures
            self.is_cell(handle, r),
    ;
}

/// `handle` is below a size: a finite one greater than it. No handle is
/// below infinity: an infinite basis yields no cell.
pub open spec fn below(size: Fe2O3SizeType, handle: usize) -> bool {
    match size {
        Fe2O3SizeType::Finite(c) => handle < c,
        Fe2O3SizeType::Infinity => false,
    }
}

/// A topology basis described by a function from handle to cell, for
/// topologies with enough structure (a structured grid) that cells can be
/// computed on demand instead of stored.
///
/// The mapping is only ever called on handles below the cardinality.
#[verifier::reject_recursive_types(T)]
pub struct ImplicitTopologyBasis<T: Copy, F: Fn(usize) -> Option<DataHold<T>>> {
    /// The function that computes a cell from its handle.
    mapper: F,
    cardinality: Fe2O3SizeType,
}

impl<T: Copy, F: Fn(usize) -> Option<DataHold<T>>> ImplicitTopologyBasis<T, F> {
    /// The function that computes a cell from its handle.
    pub closed spec fn spec_mapper(&self) -> F {
        self.mapper
    }

    /// The number of cells.
    pub closed spec fn spec_size(&self) -> Fe2O3SizeType {
        self.cardinality
    }

    /// A basis of `size` cells computed by `map`, which must accept every
    /// handle below `size`.
    pub fn new(size: Fe2O3SizeType, map: F) -> (r: Self)
        requires
            forall|h: usize| below(size, h) ==> map.requires((h,)),
        ensures
            r.spec_size() == size,
            r.spec_mapper() == map,
            r.basis_wf(),
    {
        ImplicitTopologyBasis { cardinality: size, mapper: map }
    }

    /// Returns an iterator over the cells, in ascending handle order. Only a
    /// basis of finite cardinality can be iterated.
    pub fn iter(&self) -> (r: ImplicitTopologyBasisIterator<'_, T, F>)
        requires
            self.basis_wf(),
            self.spec_size() is Finite,
        ensures
            r.iter_wf(),
            r.source() == *self,
            r.position() == 0,
    {
        ImplicitTopologyBasisIterator::new(self)
    }
}

impl<T: Copy, F: Fn(usize) -> Option<DataHold<T>>> TopologyBasis for ImplicitTopologyBasis<T, F> {
    type SetHandleT = T;

    open spec fn basis_wf(&self) -> bool {
        forall|h: usize| below(self.spec_size(), h) ==> self.spec_mapper().requires((h,))
    }

    /// Below the cardinality, whatever the mapping returns; else `None`.
    open spec fn is_cell(&self, handle: usize, r: Option<DataHold<T>>) -> bool {
        if below(self.spec_size(), handle) {
            self.spec_mapper().ensures((handle,), r)
        } else {
            r is None
        }
    }

    fn get_element(&self, handle: usize) -> (r: Option<DataHold<T>>) {
        let condition = match self.cardinality {
            Fe2O3SizeType::Finite(card) => handle < card,
            Fe2O3SizeType::Infinity => false,
        };
        if condition {
            proof {
                assert(below(self.spec_size(), handle));
                assert(self.spec_mapper().requires((handle,)));
            }
            (self.mapper)(handle)
        } else {
            None
        }
    }
}

impl<T: Copy, F: Fn(usize) -> Option<DataHold<T>>> AbstractSet for ImplicitTopologyBasis<T, F> {
    open spec fn set_wf(&self) -> bool {
        true
    }

    open spec fn spec_cardinality(&self) -> Fe2O3SizeType {
        self.spec_size()
    }

    fn cardinality(&self) -> (r: Fe2O3SizeType) {
        self.cardinality
    }
}

/// An iterator over the cells of an implicit basis of finite cardinality.
#[verifier::reject_recursive_types(T)]
pub struct ImplicitTopologyBasisIterator<'a, T: Copy, F: Fn(usize) -> Option<DataHold<T>>> {
    basis: &'a ImplicitTopologyBasis<T, F>,
    top_handle: usize,
}

impl<'a, T: Copy, F: Fn(usize) -> Option<DataHold<T>>> ImplicitTopologyBasisIterator<'a, T, F> {
    /// The basis iterated over.
    pub closed spec fn source(&self) -> ImplicitTopologyBasis<T, F> {
        *self.basis
    }

    /// The handle of the next cell.
    pub closed spec fn position(&self) -> nat {
        self.top_handle as nat
    }

    /// The basis is finite and usable, and the position is at most its
    /// cardinality.
    pub closed spec fn iter_wf(&self) -> bool {
        &&& self.basis.basis_wf()
        &&& self.basis.spec_size() matches Fe2O3SizeType::Finite(c) && self.top_handle <= c
    }

    /// Starts at the first cell of `new_basis`, which must be finite.
    pub fn new(new_basis: &'a ImplicitTopologyBasis<T, F>) -> (r: Self)
        requires
            new_basis.basis_wf(),
            new_basis.spec_size() is Finite,
        ensures
            r.iter_wf(),
            r.source() == *new_basis,
            r.position() == 0,
    {
        ImplicitTopologyBasisIterator { basis: new_basis, top_handle: 0 }
    }

    /// Returns the next cell and moves past it, or `None` once every handle
    /// below the cardinality has been visited.
    pub fn next(&mut self) -> (r: Option<DataHold<T>>)
        requires
            old(self).iter_wf(),
        ensures
            final(self).iter_wf(),
            final(self).source() == old(self).source(),
            below(old(self).source().spec_size(), old(self).position() as usize) ==> {
                &&& final(self).position() == old(self).position() + 1
                &&& old(self).source().is_cell(old(self).position() as usize, r)
            },
            !below(old(self).source().spec_size(), old(self).position() as usize) ==> {
                &&& final(self).position() == old(self).position()
                &&& r is None
            },
    {
        let card = match self.basis.cardinality {
            Fe2O3SizeType::Finite(c) => c,
            Fe2O3SizeType::Infinity => 0,
        };
        if self.top_handle >= card {
            return None;
        }
        let res = self.basis.get_element(self.top_handle);
        self.top_handle = self.top_handle + 1;
        res
    }
}

/// A topology basis stored in a finite set: each element is a cell, whose
/// entries are handles to elements of a base set. Suited to unstructured grids.
pub struct ExplicitTopologyBasis<'a, T: Copy> {
    basis: FiniteSet<'a, T>,
}

impl<'a, T: Copy> ExplicitTopologyBasis<'a, T> {
    /// The set that holds the cells.
    pub closed spec fn spec_set(&self) -> FiniteSet<'a, T> {
        self.basis
    }

    /// A basis whose cells are the elements of `new_basis`.
    pub fn new(new_basis: FiniteSet<'a, T>) -> (r: Self)
        ensures
            r.spec_set() == new_basis,
    {
        ExplicitTopologyBasis { basis: new_basis }
    }

    /// Returns an iterator over the cells, in ascending handle order.
    pub fn iter(&'a self) -> (r: FiniteSetIterator<'a, T>)
        requires
            self.basis_wf(),
        ensures
            r.iter_wf(),
            r.source() == self.spec_set(),
            r.position() == 0,
    {
        self.basis.iter()
    }
}

impl<'a, T: Copy> TopologyBasis for ExplicitTopologyBasis<'a, T> {
    type SetHandleT = T;

    open spec fn basis_wf(&self) -> bool {
        self.spec_set().set_wf()
    }

    /// Exactly the answer of the underlying set's `get_element`.
    open spec fn is_cell(&self, handle: usize, r: Option<DataHold<T>>) -> bool {
        self.spec_set().answers_lookup(handle, r)
    }

    fn get_element(&self, handle: usize) -> (r: Option<DataHold<T>>) {
        self.basis.get_element(handle)
    }
}

impl<'a, T: Copy> AbstractSet for ExplicitTopologyBasis<'a, T> {
    open spec fn set_wf(&self) -> bool {
        self.spec_set().set_wf()
    }

    open spec fn spec_cardinality(&self) -> Fe2O3SizeType {
        self.spec_set().spec_cardinality()
    }

    fn cardinality(&self) -> (r: Fe2O3SizeType) {
        self.basis.cardinality()
    }
}

} // verus!
