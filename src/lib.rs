//! Shaped multi-dimensional storage with three ownership modes, and the
//! finite and infinite sets and topology bases built on top of it.
pub mod data_hold;
pub mod data_mix;
pub mod data_traits;
pub mod data_view;
pub mod data_wrap;
pub mod sets;
pub mod shape;
pub mod topology;
pub mod types;

pub use data_hold::DataHold;
pub use data_mix::DataMix;
pub use data_traits::{DataAllocator, DataContainer, DataMutator};
pub use data_view::DataView;
pub use data_wrap::DataWrap;
pub use sets::{AbstractSet, FiniteSet, FiniteSetIterator, InfiniteSet, NumberSet};
pub use topology::{
    ExplicitTopologyBasis, ImplicitTopologyBasis, ImplicitTopologyBasisIterator, TopologyBasis,
};
pub use types::Fe2O3SizeType;
