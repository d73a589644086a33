//! A closed choice over the three array realizations.
use vstd::prelude::*;
use crate::data_hold::DataHold;
use crate::data_traits::DataContainer;
use crate::data_view::DataView;
use crate::data_wrap::DataWrap;
use crate::shape::shape_product;

verus! {

/// Some shaped array, owned or borrowed. Which realization is active never
/// changes after construction; the read-only one offers no write access.
pub enum DataMix<'a, T: Copy> {
    View(DataView<'a, T>),
    Wrap(DataWrap<'a, T>),
    Hold(DataHold<T>),
}

impl<'a, T: Copy> DataMix<'a, T> {
    /// The buffer length agrees with the shape.
    pub open spec fn coherent(&self) -> bool {
        shape_product(self.spec_shape()) == self.spec_data().len()
    }

    /// The buffer in flat order.
    pub fn as_slice(&self) -> (r: &[T])
        ensures
            r@ == self.spec_data(),
    {
        match self {
            DataMix::View(v) => v.as_slice(),
            DataMix::Wrap(w) => w.as_slice(),
            DataMix::Hold(h) => h.as_slice(),
        }
    }

    /// The number of entries in the buffer.
    pub fn len(&self) -> (r: usize)
        ensures
            r == self.spec_data().len(),
    {
        match self {
            DataMix::View(v) => v.len(),
            DataMix::Wrap(w) => w.len(),
            DataMix::Hold(h) => h.len(),
        }
    }
}

impl<'a, T: Copy> DataContainer<T> for DataMix<'a, T> {
    open spec fn spec_data(&self) -> Seq<T> {
        match self {
            DataMix::View(v) => v.spec_data(),
            DataMix::Wrap(w) => w.spec_data(),
            DataMix::Hold(h) => h.spec_data(),
        }
    }

    open spec fn spec_shape(&self) -> Seq<usize> {
        match self {
            DataMix::View(v) => v.spec_shape(),
            DataMix::Wrap(w) => w.spec_shape(),
            DataMix::Hold(h) => h.spec_shape(),
        }
    }

    fn dimensions(&self) -> (r: &Vec<usize>) {
        match self {
            DataMix::View(v) => v.dimensions(),
            DataMix::Wrap(w) => w.dimensions(),
            DataMix::Hold(h) => h.dimensions(),
        }
    }

    /// The active realization is kept.
    fn reshape(&mut self, newshape: Vec<usize>)
        ensures
            (*final(self) is View) == (*old(self) is View),
            (*final(self) is Wrap) == (*old(self) is Wrap),
            (*final(self) is Hold) == (*old(self) is Hold),
    {
        match self {
            DataMix::View(v) => v.reshape(newshape),
            DataMix::Wrap(w) => w.reshape(newshape),
            DataMix::Hold(h) => h.reshape(newshape),
        }
    }

    fn flat_index(&self, mindex: Vec<usize>) -> (r: usize) {
        match self {
            DataMix::View(v) => v.flat_index(mindex),
            DataMix::Wrap(w) => w.flat_index(mindex),
            DataMix::Hold(h) => h.flat_index(mindex),
        }
    }

    fn multi_index(&self, mindex: Vec<usize>) -> (r: &T) {
        match self {
            DataMix::View(v) => v.multi_index(mindex),
            DataMix::Wrap(w) => w.multi_index(mindex),
            DataMix::Hold(h) => h.multi_index(mindex),
        }
    }
}

} // verus!
