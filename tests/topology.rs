use fe2o3::{
    AbstractSet, DataHold, DataMix, ExplicitTopologyBasis, Fe2O3SizeType, FiniteSet,
    ImplicitTopologyBasis, TopologyBasis,
};
use std::iter::zip;
use std::ops::Range;

fn id_topology(index: usize) -> Option<DataHold<usize>> {
    Some(DataHold::new(vec![index], vec![1]))
}

#[test]
fn test_create_implicit_topology_basis() {
    let top = ImplicitTopologyBasis::new(Fe2O3SizeType::Finite(10), id_topology);
    assert_eq!(
        top.cardinality(),
        Fe2O3SizeType::Finite(10),
        "Cardinality of implicit topology basis does not check out"
    )
}

#[test]
fn test_get_element_implicit_topology_basis() {
    let top = ImplicitTopologyBasis::new(Fe2O3SizeType::Finite(10), id_topology);
    let el = top.get_element(4).unwrap();
    assert_eq!(el[0], 4, "get_element not functioning for ImplicitTopologyBasis");
}

#[test]
fn test_iter_implicit_topology_basis() {
    let top = ImplicitTopologyBasis::new(Fe2O3SizeType::Finite(10), id_topology);
    let range: Range<usize> = 0..10;
    let mut it = top.iter();
    let cells: Vec<DataHold<usize>> = std::iter::from_fn(|| it.next()).collect();
    for (i_el, el) in zip(range, cells.iter()) {
        assert_eq!(i_el, el[0], "ImplicitTopologyBasisIterator looks broken");
    }
}

#[test]
fn test_create_explicit_topology_basis() {
    let set = FiniteSet {
        elements: DataMix::Hold(DataHold::new((0..10).collect(), vec![5, 2])),
    };
    let top = ExplicitTopologyBasis::new(set);
    assert_eq!(
        top.cardinality(),
        Fe2O3SizeType::Finite(5),
        "Cardinality of explicit topology basis does not check out"
    )
}

#[test]
fn test_get_element_explicit_topology_basis() {
    let set = FiniteSet {
        elements: DataMix::Hold(DataHold::new((0..10).collect(), vec![5, 2])),
    };
    let top = ExplicitTopologyBasis::new(set);
    let el = top.get_element(2).unwrap();
    assert_eq!(el[0], 4, "Get element of explicit topology basis failed on first check");
    assert_eq!(el[1], 5, "Get element of explicit topology basis failed on second check");
}
