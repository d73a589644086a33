//! The borrowed writable realization.
use vstd::prelude::*;
use crate::data_traits::{DataContainer, DataMutator};
use crate::shape::{flat_index_in, shape_product};

verus! {

/// Multi-dimensional data read and written through a mutable borrow of a
/// contiguous buffer whose length the lender fixes.
///
/// The layout is row-major, as for `DataView`.
pub struct DataWrap<'a, T>(&'a mut [T], Vec<usize>);

impl<'a, T> DataWrap<'a, T> {
    /// Reads and writes `arr` under the shape `shp`.
    pub fn new(arr: &'a mut [T], shp: Vec<usize>) -> (r: Self)
        requires
            shape_product(shp@) == old(arr)@.len(),
        ensures
            r.spec_data() == old(arr)@,
            r.spec_shape() == shp@,
    {
        DataWrap(arr, shp)
    }

    /// The buffer in flat order.
    pub fn as_slice(&self) -> (r: &[T])
        ensures
            r@ == self.spec_data(),
    {
        &*self.0
    }

    /// The number of entries in the buffer.
    pub fn len(&self) -> (r: usize)
        ensures
            r == self.spec_data().len(),
    {
        self.0.len()
    }
}

impl<'a, T> std::ops::Deref for DataWrap<'a, T> {
    type Target = [T];

    fn deref(&self) -> &[T] {
        &*self.0
    }
}

impl<'a, T> std::ops::DerefMut for DataWrap<'a, T> {
    fn deref_mut(&mut self) -> &mut [T] {
        &mut *self.0
    }
}

impl<'a, T> AsRef<[T]> for DataWrap<'a, T> {
    fn as_ref(&self) -> &[T] {
        &*self.0
    }
}

impl<'a, T> AsMut<[T]> for DataWrap<'a, T> {
    fn as_mut(&mut self) -> &mut [T] {
        &mut *self.0
    }
}

impl<'a, T> DataContainer<T> for DataWrap<'a, T> {
    closed spec fn spec_data(&self) -> Seq<T> {
        self.0@
    }

    closed spec fn spec_shape(&self) -> Seq<usize> {
        self.1@
    }

    fn dimensions(&self) -> (r: &Vec<usize>) {
        &self.1
    }

    fn reshape(&mut self, newshape: Vec<usize>) {
        self.1 = newshape;
    }

    fn flat_index(&self, mindex: Vec<usize>) -> (r: usize) {
        proof {
            assert(self.0@.len() == self.0.len());
        }
        flat_index_in(&self.1, &mindex)
    }

    fn multi_index(&self, mindex: Vec<usize>) -> (r: &T) {
        let flat = self.flat_index(mindex);
        &self.0[flat]
    }
}

impl<'a, T> DataMutator<T> for DataWrap<'a, T> {
    fn multi_index_mut(&mut self, mindex: Vec<usize>) -> (r: &mut T) {
        let flat = self.flat_index(mindex);
        &mut self.0[flat]
    }
}

} // verus!
