//! The shape contract shared by every array realization: read access,
//! reshaping, writing and allocation.
use vstd::prelude::*;
use crate::shape::{flat_offset, shape_product, valid_index};

verus! {

/// Read-only operations on shaped data.
pub trait DataContainer<T> {
    /// The backing buffer, in flat order.
    spec fn spec_data(&self) -> Seq<T>;

    /// The current shape.
    spec fn spec_shape(&self) -> Seq<usize>;

    /// The current shape.
    fn dimensions(&self) -> (r: &Vec<usize>)
        ensures
            r@ == self.spec_shape(),
    ;

    /// Reinterprets the same buffer under `newshape`, which must address
    /// exactly as many entries as the buffer holds.
    fn reshape(&mut self, newshape: Vec<usize>)
        requires
            shape_product(newshape@) == old(self).spec_data().len(),
        ensures
            final(self).spec_shape() == newshape@,
            final(self).spec_data() == old(self).spec_data(),
    ;

    /// The row-major offset of a multi-index in the buffer.
    fn flat_index(&self, mindex: Vec<usize>) -> (r: usize)
        requires
            shape_product(self.spec_shape()) == self.spec_data().len(),
            valid_index(self.spec_shape(), mindex@),
        ensures
            r == flat_offset(self.spec_shape(), mindex@),
            r < self.spec_data().len(),
    ;

    /// The entry at a multi-index.
    fn multi_index(&self, mindex: Vec<usize>) -> (r: &T)
        requires
            shape_product(self.spec_shape()) == self.spec_data().len(),
            valid_index(self.spec_shape(), mindex@),
        ensures
            flat_offset(self.spec_shape(), mindex@) < self.spec_data().len(),
            *r == self.spec_data()[flat_offset(self.spec_shape(), mindex@) as int],
    ;
}

/// Write access to the entries of shaped data.
pub trait DataMutator<T>: DataContainer<T> {
    /// A mutable reference to the entry at a multi-index.
    fn multi_index_mut(&mut self, mindex: Vec<usize>) -> (r: &mut T)
        requires
            shape_product(old(self).spec_shape()) == old(self).spec_data().len(),
            valid_index(old(self).spec_shape(), mindex@),
        ensures
            flat_offset(old(self).spec_shape(), mindex@) < old(self).spec_data().len(),
            *r == old(self).spec_data()[flat_offset(old(self).spec_shape(), mindex@) as int],
            final(self).spec_shape() == old(self).spec_shape(),
            final(self).spec_data() == old(self).spec_data().update(
                flat_offset(old(self).spec_shape(), mindex@) as int,
                *final(r),
            ),
    ;
}

/// The buffer after its length is set to `n`: cut at the tail, or padded at
/// the tail with `value`.
pub open spec fn resized<T>(data: Seq<T>, n: nat, value: T) -> Seq<T> {
    if n <= data.len() {
        data.take(n as int)
    } else {
        data + Seq::new((n - data.len()) as nat, |_k: int| value)
    }
}

/// Control over the length of the backing buffer.
pub trait DataAllocator<T>: DataContainer<T> {
    /// Sets the buffer length to `product(newshape)`, cutting or padding with
    /// `value` at the tail, then takes `newshape`. Entries are not moved.
    fn resize(&mut self, newshape: Vec<usize>, value: T)
        requires
            shape_product(newshape@) <= usize::MAX,
        ensures
            final(self).spec_shape() == newshape@,
            final(self).spec_data() == resized(old(self).spec_data(), shape_product(newshape@), value),
    ;
}

} // verus!
