use fe2o3::{
    AbstractSet, DataAllocator, DataContainer, DataHold, DataMix, DataMutator, DataView, DataWrap,
    ExplicitTopologyBasis, Fe2O3SizeType, FiniteSet, ImplicitTopologyBasis, InfiniteSet,
    NumberSet, TopologyBasis,
};

fn identity_cell(index: usize) -> Option<DataHold<usize>> {
    Some(DataHold::new(vec![index], vec![1]))
}

fn three_pairs() -> FiniteSet<'static, i32> {
    FiniteSet { elements: DataMix::Hold(DataHold::new(vec![0, 1, 2, 3, 4, 5], vec![3, 2])) }
}

#[test]
fn flat_index_of_two_dimensional_shape() {
    let hold = DataHold::new(vec![0, 1, 2, 3, 4, 5, 6, 7], vec![4, 2]);
    assert_eq!(hold.flat_index(vec![2, 1]), 5);
    assert_eq!(hold.flat_index(vec![3, 0]), 6);
    assert_eq!(*hold.multi_index(vec![1, 1]), 3);
}

#[test]
fn flat_index_of_three_dimensional_shape() {
    let data: Vec<usize> = (0..24).collect();
    let view = DataView::new(&data, vec![2, 3, 4]);
    assert_eq!(view.flat_index(vec![1, 2, 3]), 23);
    assert_eq!(view.flat_index(vec![1, 0, 2]), 14);
    assert_eq!(view.flat_index(vec![0, 0, 0]), 0);
}

#[test]
fn flat_indices_are_distinct_and_in_range() {
    let data: Vec<u8> = vec![0; 24];
    let view = DataView::new(&data, vec![3, 4, 2]);
    let mut seen = vec![false; 24];
    for a in 0..3 {
        for b in 0..4 {
            for c in 0..2 {
                let f = view.flat_index(vec![a, b, c]);
                assert!(f < 24);
                assert!(!seen[f]);
                seen[f] = true;
            }
        }
    }
    assert!(seen.iter().all(|s| *s));
}

#[test]
fn reshape_keeps_the_buffer() {
    let mut hold = DataHold::new(vec![0, 1, 2, 3, 4, 5, 6, 7], vec![8]);
    hold.reshape(vec![2, 2, 2]);
    assert_eq!(hold.dimensions(), &vec![2, 2, 2]);
    assert_eq!(hold.as_slice(), &[0, 1, 2, 3, 4, 5, 6, 7]);
    assert_eq!(*hold.multi_index(vec![1, 0, 1]), 5);
}

#[test]
fn resize_pads_at_the_tail() {
    let mut hold = DataHold::new(vec![1, 2], vec![2]);
    hold.resize(vec![2, 2], 7);
    assert_eq!(hold.as_slice(), &[1, 2, 7, 7]);
    assert_eq!(hold.dimensions(), &vec![2, 2]);
}

#[test]
fn resize_cuts_at_the_tail() {
    let mut hold = DataHold::new(vec![0, 1, 2, 3, 4, 5, 6, 7], vec![8]);
    hold.resize(vec![2, 2], 9);
    assert_eq!(hold.as_slice(), &[0, 1, 2, 3]);
    assert_eq!(hold.dimensions(), &vec![2, 2]);
}

#[test]
fn resize_to_a_zero_dimension_empties_the_buffer() {
    let mut hold = DataHold::new(vec![0, 1, 2, 3], vec![4]);
    hold.resize(vec![3, 0], 1);
    assert_eq!(hold.len(), 0);
    assert_eq!(hold.dimensions(), &vec![3, 0]);
}

#[test]
fn wrap_writes_reach_the_lender() {
    let mut base = vec![0, 1, 2, 3, 4, 5];
    {
        let mut wrap = DataWrap::new(&mut base, vec![3, 2]);
        *wrap.multi_index_mut(vec![2, 0]) = 40;
        assert_eq!(wrap.flat_index(vec![2, 0]), 4);
        assert_eq!(*wrap.multi_index(vec![2, 0]), 40);
    }
    assert_eq!(base, vec![0, 1, 2, 3, 40, 5]);
}

#[test]
fn data_mix_dispatches_to_each_realization() {
    let base = vec![0, 1, 2, 3, 4, 5];
    let mut view = DataMix::View(DataView::new(&base, vec![6]));
    view.reshape(vec![2, 3]);
    assert!(matches!(view, DataMix::View(_)));
    assert_eq!(view.dimensions(), &vec![2, 3]);
    assert_eq!(view.flat_index(vec![1, 2]), 5);
    assert_eq!(*view.multi_index(vec![1, 0]), 3);

    let mut other = vec![9, 8, 7, 6];
    let wrap = DataMix::Wrap(DataWrap::new(&mut other, vec![2, 2]));
    assert_eq!(*wrap.multi_index(vec![1, 1]), 6);
    assert_eq!(wrap.len(), 4);

    let mut hold = DataMix::Hold(DataHold::new(vec![5, 6, 7], vec![3]));
    hold.reshape(vec![3, 1]);
    assert!(matches!(hold, DataMix::Hold(_)));
    hold.reshape(vec![3]);
    assert_eq!(*hold.multi_index(vec![2]), 7);
    assert_eq!(hold.as_slice(), &[5, 6, 7]);
}

#[test]
fn finite_set_of_pairs() {
    let set = three_pairs();
    assert_eq!(set.cardinality(), Fe2O3SizeType::Finite(3));
    let el = set.get_element(1).unwrap();
    assert_eq!(el.as_slice(), &[2, 3]);
    assert_eq!(el.dimensions(), &vec![2]);
}

#[test]
fn finite_set_iteration_in_order_then_stops() {
    let set = three_pairs();
    let mut it = set.iter();
    assert_eq!(it.next().unwrap().as_slice(), &[0, 1]);
    assert_eq!(it.next().unwrap().as_slice(), &[2, 3]);
    assert_eq!(it.next().unwrap().as_slice(), &[4, 5]);
    assert!(it.next().is_none());
    assert!(it.next().is_none());
}

#[test]
fn lookup_past_the_cardinality_is_absent() {
    let set = three_pairs();
    assert!(set.get_element(3).is_none());
    assert!(set.get_element(4).is_none());
    assert!(set.get_element(usize::MAX).is_none());
}

#[test]
fn empty_set_has_no_elements() {
    let set: FiniteSet<i32> = FiniteSet { elements: DataMix::Hold(DataHold::new(vec![], vec![0, 2])) };
    assert_eq!(set.cardinality(), Fe2O3SizeType::Finite(0));
    assert!(set.get_element(0).is_none());
    let mut it = set.iter();
    assert!(it.next().is_none());
}

#[test]
fn scalar_elements_have_shape_one() {
    let set = FiniteSet { elements: DataMix::Hold(DataHold::new(vec![5, 6, 7], vec![3])) };
    let el = set.get_element(2).unwrap();
    assert_eq!(el.as_slice(), &[7]);
    assert_eq!(el.dimensions(), &vec![1]);

    let set = FiniteSet { elements: DataMix::Hold(DataHold::new(vec![5, 6, 7], vec![3, 1, 1])) };
    let el = set.get_element(0).unwrap();
    assert_eq!(el.as_slice(), &[5]);
    assert_eq!(el.dimensions(), &vec![1]);
}

#[test]
fn elements_keep_the_trailing_shape() {
    let data: Vec<u32> = (0..12).collect();
    let set = FiniteSet { elements: DataMix::View(DataView::new(&data, vec![2, 3, 2])) };
    let el = set.get_element(1).unwrap();
    assert_eq!(el.dimensions(), &vec![3, 2]);
    assert_eq!(el.as_slice(), &[6, 7, 8, 9, 10, 11]);
}

#[test]
fn borrowed_sets_give_copies() {
    let mut data = vec![0, 1, 2, 3, 4, 5];
    let set = FiniteSet { elements: DataMix::Wrap(DataWrap::new(&mut data, vec![3, 2])) };
    let el = set.get_element(2).unwrap();
    assert_eq!(el.as_slice(), &[4, 5]);
}

#[test]
fn infinite_sets() {
    let n = NumberSet::Naturals(InfiniteSet {});
    match n {
        NumberSet::Naturals(s) => assert_eq!(s.cardinality(), Fe2O3SizeType::Infinity),
        _ => unreachable!(),
    }
    assert_ne!(Fe2O3SizeType::Infinity, Fe2O3SizeType::Finite(usize::MAX));
}

#[test]
fn implicit_identity_basis() {
    let top = ImplicitTopologyBasis::new(Fe2O3SizeType::Finite(10), identity_cell);
    assert_eq!(top.get_element(4).unwrap().as_slice(), &[4]);
    assert!(top.get_element(10).is_none());
    let mut it = top.iter();
    for expected in 0..10 {
        assert_eq!(it.next().unwrap().as_slice(), &[expected]);
    }
    assert!(it.next().is_none());
}

#[test]
fn infinite_implicit_basis_gives_no_cell() {
    let top = ImplicitTopologyBasis::new(Fe2O3SizeType::Infinity, identity_cell);
    assert_eq!(top.cardinality(), Fe2O3SizeType::Infinity);
    assert!(top.get_element(0).is_none());
    assert!(top.get_element(7).is_none());
}

#[test]
fn explicit_basis_matches_its_set() {
    let make = || FiniteSet { elements: DataMix::Hold(DataHold::new((0..10).collect::<Vec<usize>>(), vec![5, 2])) };
    let set = make();
    let top = ExplicitTopologyBasis::new(make());
    let from_basis = top.get_element(2).unwrap();
    let from_set = set.get_element(2).unwrap();
    assert_eq!(from_basis.as_slice(), &[4, 5]);
    assert_eq!(from_basis.as_slice(), from_set.as_slice());
    assert_eq!(from_basis.dimensions(), from_set.dimensions());
    assert!(top.get_element(5).is_none());
    let mut it = top.iter();
    let mut count = 0;
    while let Some(cell) = it.next() {
        assert_eq!(cell.as_slice(), &[2 * count, 2 * count + 1]);
        count += 1;
    }
    assert_eq!(count, 5);
}
