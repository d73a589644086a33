//! The borrowed read-only realization.
use vstd::prelude::*;
use crate::data_traits::DataContainer;
use crate::shape::{flat_index_in, shape_product};

verus! {

/// Multi-dimensional data read through a shared borrow of a contiguous buffer.
///
/// The shape lists the size of each dimension; the last dimension varies
/// fastest (row-major). For data `v0 | v1 | ... | vn` and shape `d0 | d1`:
///
/// ```text
/// v0          | ... | v(d1-1)
/// v(d1)       | ... | v(2d1-1)
///             ...
/// v((d0-1)d1) | ... | vn
/// ```
pub struct DataView<'a, T>(&'a [T], Vec<usize>);

impl<'a, T> DataView<'a, T> {
    /// Reads `arr` under the shape `shp`.
    pub fn new(arr: &'a [T], shp: Vec<usize>) -> (r: Self)
        requires
            shape_product(shp@) == arr@.len(),
        ensures
            r.spec_data() == arr@,
            r.spec_shape() == shp@,
    {
        DataView(arr, shp)
    }

    /// The buffer in flat order.
    pub fn as_slice(&self) -> (r: &'a [T])
        ensures
            r@ == self.spec_data(),
    {
        self.0
    }

    /// The number of entries in the buffer.
    pub fn len(&self) -> (r: usize)
        ensures
            r == self.spec_data().len(),
    {
        self.0.len()
    }
}

impl<'a, T> std::ops::Deref for DataView<'a, T> {
    type Target = [T];

    fn deref(&self) -> &[T] {
        self.0
    }
}

impl<'a, T> AsRef<[T]> for DataView<'a, T> {
    fn as_ref(&self) -> &[T] {
        self.0
    }
}

impl<'a, T> DataContainer<T> for DataView<'a, T> {
    closed spec fn spec_data(&self) -> Seq<T> {
        self.0@
    }

    closed spec fn spec_shape(&self) -> Seq<usize> {
        self.1@
    }

    fn dimensions(&self) -> (r: &Vec<usize>) {
        &self.1
    }

    fn reshape(&mut self, newshape: Vec<usize>) {
        self.1 = newshape;
    }

    fn flat_index(&self, mindex: Vec<usize>) -> (r: usize) {
        proof {
            assert(self.0@.len() == self.0.len());
        }
        flat_index_in(&self.1, &mindex)
    }

    fn multi_index(&self, mindex: Vec<usize>) -> (r: &T) {
        let flat = self.flat_index(mindex);
        &self.0[flat]
    }
}

} // verus!
