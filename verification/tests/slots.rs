use oar_ocr::config::Float32;
use oar_ocr::slots::{
    assemble_results, empty_slots, place_recognized_chunk, place_result, present_results,
    RecognizedRegion,
};

#[test]
fn empty_table_has_requested_shape() {
    let t: Vec<Vec<Option<u32>>> = empty_slots(&vec![2, 0, 3]);
    assert_eq!(t, vec![vec![None, None], vec![], vec![None, None, None]]);
}

#[test]
fn results_land_in_their_slot_and_read_back_in_order() {
    let mut t: Vec<Vec<Option<&str>>> = empty_slots(&vec![3, 2]);
    place_result(&mut t, 0, 2, "c");
    place_result(&mut t, 1, 0, "x");
    place_result(&mut t, 0, 0, "a");
    // Places that do not exist leave the table unchanged.
    place_result(&mut t, 0, 3, "out");
    place_result(&mut t, 2, 0, "out");
    assert_eq!(t, vec![vec![Some("a"), None, Some("c")], vec![Some("x"), None]]);
    let rows: Vec<Vec<&str>> = t.into_iter().map(present_results).collect();
    assert_eq!(rows, vec![vec!["a", "c"], vec!["x"]]);
}

#[test]
fn filling_a_slot_inserts_its_value_between_neighbours() {
    let row = vec![Some(1), None, Some(3)];
    let mut t = vec![row];
    place_result(&mut t, 0, 1, 2);
    assert_eq!(present_results(t.pop().unwrap()), vec![1, 2, 3]);
    assert_eq!(present_results::<u8>(vec![]), Vec::<u8>::new());
    assert_eq!(present_results::<u8>(vec![None, None]), Vec::<u8>::new());
}

#[test]
fn recognized_chunk_fills_named_slots() {
    let mut t: Vec<Vec<Option<RecognizedRegion<&str>>>> = empty_slots(&vec![2, 1]);
    let chunk = vec![(1, 0, "r0"), (0, 1, "r1"), (0, 0, "r2"), (5, 0, "r3")];
    let texts = vec![String::from("x"), String::from("b")];
    let scores = vec![Float32::from_bits(0.5f32.to_bits())];
    place_recognized_chunk(&mut t, chunk, &texts, &scores);
    // Only as many regions as there are texts are placed.
    assert!(t[0][0].is_none());
    let b = t[0][1].as_ref().unwrap();
    assert_eq!(b.text, "b");
    assert_eq!(b.region, "r1");
    assert_eq!(b.score.bits, 0);
    let x = t[1][0].as_ref().unwrap();
    assert_eq!(x.text, "x");
    assert_eq!(x.region, "r0");
    assert_eq!(f32::from_bits(x.score.bits), 0.5);
    // A slot that does not exist is skipped.
    let mut t2: Vec<Vec<Option<RecognizedRegion<u8>>>> = empty_slots(&vec![1]);
    place_recognized_chunk(&mut t2, vec![(3, 0, 9)], &vec![String::from("z")], &vec![]);
    assert!(t2[0][0].is_none());
}

#[test]
fn results_are_assembled_in_input_order() {
    let table = vec![vec![Some('a'), None, Some('b')], vec![], vec![None, Some('c')]];
    let results = assemble_results(table);
    assert_eq!(results.len(), 3);
    assert_eq!(results[0].index, 0);
    assert_eq!(results[0].input_path, "image_0");
    assert_eq!(results[0].regions, vec!['a', 'b']);
    assert!(results[1].regions.is_empty());
    assert_eq!(results[2].input_path, "image_2");
    assert_eq!(results[2].regions, vec!['c']);
}
