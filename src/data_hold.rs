//! The owned realization: an exclusively owned buffer that can grow and shrink.
use vstd::prelude::*;
use crate::data_traits::{resized, DataAllocator, DataContainer, DataMutator};
use crate::shape::{flat_index_in, product_of, shape_product};

verus! {

/// Multi-dimensional data that owns its buffer and controls its length.
///
/// The layout is row-major: the last dimension varies fastest.
pub struct DataHold<T: Copy>(Vec<T>, Vec<usize>);

impl<T: Copy> DataHold<T> {
    /// Takes ownership of `data`, read under `shape`.
    pub fn new(data: Vec<T>, shape: Vec<usize>) -> (r: Self)
        requires
            shape_product(shape@) == data@.len(),
        ensures
            r.spec_data() == data@,
            r.spec_shape() == shape@,
    {
        DataHold(data, shape)
    }

    /// The buffer in flat order.
    pub fn as_slice(&self) -> (r: &[T])
        ensures
            r@ == self.spec_data(),
    {
        self.0.as_slice()
    }

    /// The number of entries in the buffer.
    pub fn len(&self) -> (r: usize)
        ensures
            r == self.spec_data().len(),
    {
        self.0.len()
    }
}

impl<T: Copy> std::ops::Deref for DataHold<T> {
    type Target = [T];

    fn deref(&self) -> &[T] {
        self.0.as_slice()
    }
}

impl<T: Copy> std::ops::DerefMut for DataHold<T> {
    fn deref_mut(&mut self) -> &mut [T] {
        self.0.as_mut_slice()
    }
}

impl<T: Copy> AsRef<[T]> for DataHold<T> {
    fn as_ref(&self) -> &[T] {
        self.0.as_slice()
    }
}

impl<T: Copy> AsMut<[T]> for DataHold<T> {
    fn as_mut(&mut self) -> &mut [T] {
        self.0.as_mut_slice()
    }
}

impl<T: Copy> DataContainer<T> for DataHold<T> {
    closed spec fn spec_data(&self) -> Seq<T> {
        self.0@
    }

    closed spec fn spec_shape(&self) -> Seq<usize> {
        self.1@
    }

    fn dimensions(&self) -> (r: &Vec<usize>) {
        &self.1
    }

    fn reshape(&mut self, newshape: Vec<usize>) {
        self.1 = newshape;
    }

    fn flat_index(&self, mindex: Vec<usize>) -> (r: usize) {
        proof {
            assert(self.0@.len() == self.0.len());
        }
        flat_index_in(&self.1, &mindex)
    }

    fn multi_index(&self, mindex: Vec<usize>) -> (r: &T) {
        let flat = self.flat_index(mindex);
        &self.0[flat]
    }
}

impl<T: Copy> DataMutator<T> for DataHold<T> {
    fn multi_index_mut(&mut self, mindex: Vec<usize>) -> (r: &mut T) {
        let flat = self.flat_index(mindex);
        &mut self.0[flat]
    }
}

impl<T: Copy> DataAllocator<T> for DataHold<T> {
    fn resize(&mut self, newshape: Vec<usize>, value: T) {
        let n = product_of(&newshape);
        let ghost before = self.0@;
        self.0.truncate(n);
        while self.0.len() < n
            invariant
                n == shape_product(newshape@),
                n > before.len() ==> {
                    &&& before.len() <= self.0@.len() <= n
                    &&& self.0@.take(before.len() as int) == before
                    &&& forall|k: int|
                        before.len() <= k < self.0@.len() ==> #[trigger] self.0@[k] == value
                },
                n <= before.len() ==> self.0@ == before.take(n as int),
            decreases n - self.0@.len(),
        {
            let ghost prev = self.0@;
            self.0.push(value);
            proof {
                if n > before.len() {
                    assert(self.0@.take(before.len() as int) =~= prev.take(before.len() as int));
                }
            }
        }
        proof {
            if n > before.len() {
                assert(self.0@ =~= resized(before, n as nat, value));
            }
        }
        self.reshape(newshape);
    }
}

} // verus!
