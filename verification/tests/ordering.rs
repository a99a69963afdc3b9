use oar_ocr::ordering::{reorder, stable_order};

#[test]
fn stable_order_sorts_by_key_keeping_ties_in_place() {
    assert_eq!(stable_order(&vec![]), Vec::<usize>::new());
    assert_eq!(stable_order(&vec![3, 1, 2, 1, 3]), vec![1, 3, 2, 0, 4]);
    assert_eq!(stable_order(&vec![5, 5, 5]), vec![0, 1, 2]);
}

#[test]
fn stable_order_matches_a_stable_sort_of_ratios() {
    let ratios = [2.5f32, 0.5, 6.0, 0.5, 1.0, 2.5, 0.0, 10.0];
    let keys: Vec<u32> = ratios.iter().map(|r| r.to_bits()).collect();
    let mut expected: Vec<usize> = (0..ratios.len()).collect();
    expected.sort_by(|a, b| ratios[*a].partial_cmp(&ratios[*b]).unwrap());
    assert_eq!(stable_order(&keys), expected);
}

#[test]
fn reorder_moves_items_into_place() {
    let items = vec![String::from("a"), String::from("b"), String::from("c")];
    assert_eq!(reorder(items, &vec![2, 0, 1]), vec!["c", "a", "b"]);
    assert_eq!(reorder(Vec::<u8>::new(), &vec![]), Vec::<u8>::new());
}
