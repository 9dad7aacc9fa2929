use retris::table::GameTable;

#[test]
fn new_table_is_empty() {
    let t: GameTable<u32> = GameTable::new(10, 24);
    assert_eq!(t.rows(), 24);
    for row in 0..24 {
        for col in 0..10 {
            assert!(!t.has(col, row));
            assert!(t.get(col, row).is_none());
        }
    }
}

#[test]
fn is_valid_position_checks_both_axes() {
    let t: GameTable<u32> = GameTable::new(10, 24);
    assert!(t.is_valid_position(0, 0));
    assert!(t.is_valid_position(9, 23));
    assert!(!t.is_valid_position(-1, 0));
    assert!(!t.is_valid_position(0, -1));
    assert!(!t.is_valid_position(10, 0));
    assert!(!t.is_valid_position(0, 24));
}

#[test]
fn set_get_has_remove() {
    let mut t: GameTable<u32> = GameTable::new(10, 24);
    assert_eq!(t.set(3, 5, 7), None);
    assert!(t.has(3, 5));
    assert_eq!(t.get(3, 5), Some(&7));
    // overwriting returns the previous value
    assert_eq!(t.set(3, 5, 9), Some(7));
    assert_eq!(t.get(3, 5), Some(&9));
    assert_eq!(t.remove(3, 5), Some(9));
    assert!(!t.has(3, 5));
    assert_eq!(t.remove(3, 5), None);
}

#[test]
fn out_of_bounds_writes_are_refused() {
    let mut t: GameTable<u32> = GameTable::new(10, 24);
    assert_eq!(t.set(-1, 0, 1), None);
    assert_eq!(t.set(0, 24, 1), None);
    assert_eq!(t.set(10, 0, 1), None);
    for row in 0..24 {
        for col in 0..10 {
            assert!(!t.has(col, row));
        }
    }
}

#[test]
fn clear_empties_everything() {
    let mut t: GameTable<u32> = GameTable::new(4, 4);
    t.set(0, 0, 1);
    t.set(3, 3, 2);
    t.clear();
    for row in 0..4 {
        for col in 0..4 {
            assert!(!t.has(col, row));
        }
    }
}

#[test]
fn is_row_full_and_clear_row() {
    let mut t: GameTable<u32> = GameTable::new(3, 4);
    assert!(!t.is_row_full(2));
    t.set(0, 2, 1);
    t.set(1, 2, 1);
    assert!(!t.is_row_full(2));
    t.set(2, 2, 1);
    assert!(t.is_row_full(2));
    assert!(!t.is_row_full(-1));
    assert!(!t.is_row_full(4));
    t.clear_row(2);
    assert!(!t.is_row_full(2));
    assert!(!t.has(0, 2));
}

#[test]
fn remove_row_and_shift_down_moves_rows_above() {
    let mut t: GameTable<u32> = GameTable::new(3, 5);
    t.set(0, 0, 10);
    t.set(1, 1, 11);
    t.set(2, 3, 13);
    t.set(0, 4, 14);
    assert!(t.remove_row_and_shift_down(3));
    // rows 0..3 moved down one step; row 4 untouched; top row fresh
    assert!(!t.has(0, 0));
    assert_eq!(t.get(0, 1), Some(&10));
    assert_eq!(t.get(1, 2), Some(&11));
    assert!(!t.has(2, 3));
    assert_eq!(t.get(0, 4), Some(&14));
    // out of bounds is refused
    assert!(!t.remove_row_and_shift_down(5));
    assert!(!t.remove_row_and_shift_down(-1));
}

#[test]
fn iter_yields_rows_in_order() {
    let mut t: GameTable<u32> = GameTable::new(3, 3);
    t.set(2, 0, 20);
    t.set(0, 1, 10);
    t.set(1, 1, 11);
    let triples = t.iter();
    assert_eq!(triples, vec![(2, 0, 20), (0, 1, 10), (1, 1, 11)]);
}

#[test]
fn iter_row_yields_one_row() {
    let mut t: GameTable<u32> = GameTable::new(3, 3);
    t.set(2, 1, 21);
    t.set(0, 1, 1);
    t.set(0, 2, 2);
    assert_eq!(t.iter_row(1), vec![(0, 1), (2, 21)]);
    assert_eq!(t.iter_row(0), vec![]);
    assert_eq!(t.iter_row(-1), vec![]);
    assert_eq!(t.iter_row(3), vec![]);
}
