use gausplat_trainer::rows::{argwhere, extend, full, mask_where, select};

#[test]
fn argwhere_lists_true_positions_in_order() {
    let mask = vec![false, true, true, false, true];
    assert_eq!(argwhere(&mask), vec![1, 2, 4]);
}

#[test]
fn argwhere_of_nothing_is_empty() {
    assert_eq!(argwhere(&Vec::new()), Vec::<usize>::new());
    assert_eq!(argwhere(&vec![false, false]), Vec::<usize>::new());
}

#[test]
fn select_follows_the_order_of_the_indices() {
    let rows = vec![[0.5f32, 1.0], [1.5, 2.0], [2.5, 3.0]];
    assert_eq!(select(&rows, &vec![2, 0, 2]), vec![[2.5, 3.0], [0.5, 1.0], [2.5, 3.0]]);
}

#[test]
fn select_with_no_index_is_empty() {
    let rows = vec![[0.5f32, 1.0], [1.5, 2.0]];
    assert_eq!(select(&rows, &Vec::new()), Vec::<[f32; 2]>::new());
}

#[test]
fn full_repeats_the_value() {
    assert_eq!(full(3, 1u64), vec![1, 1, 1]);
    assert_eq!(full(0, 1u64), Vec::<u64>::new());
    assert_eq!(full(2, [0.0f32; 3]), vec![[0.0; 3], [0.0; 3]]);
}

#[test]
fn extend_appends_the_tail() {
    let mut rows = vec![1.0f64, 2.0];
    extend(&mut rows, &vec![3.0, 4.0]);
    assert_eq!(rows, vec![1.0, 2.0, 3.0, 4.0]);
    extend(&mut rows, &Vec::new());
    assert_eq!(rows, vec![1.0, 2.0, 3.0, 4.0]);
}

#[test]
fn mask_where_chooses_row_by_row() {
    let kept = vec![1.0f32, 2.0, 3.0];
    let chosen = vec![10.0f32, 20.0, 30.0];
    let mask = vec![true, false, true];
    assert_eq!(mask_where(&kept, &mask, &chosen), vec![10.0, 2.0, 30.0]);
}
