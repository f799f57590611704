use shelterflex_contracts::arith::{
    saturating_add, saturating_mul, saturating_sub, scaled_product,
};
use shelterflex_contracts::table::Table;

#[test]
fn sums_and_products_stop_at_the_bounds() {
    assert_eq!(saturating_add(i128::MAX, 1), i128::MAX);
    assert_eq!(saturating_add(i128::MIN, -1), i128::MIN);
    assert_eq!(saturating_add(-3, 5), 2);
    assert_eq!(saturating_sub(i128::MIN, 1), i128::MIN);
    assert_eq!(saturating_sub(0, i128::MIN), i128::MAX);
    assert_eq!(saturating_sub(3, 5), -2);
    assert_eq!(saturating_mul(i128::MAX, -2), i128::MIN);
    assert_eq!(saturating_mul(i128::MIN, -1), i128::MAX);
    assert_eq!(saturating_mul(-3, 5), -15);
}

#[test]
fn scaled_products_round_toward_zero() {
    assert_eq!(scaled_product(7, 3, 10), 2);
    assert_eq!(scaled_product(-7, 3, 10), -2);
    assert_eq!(scaled_product(-27, -31, 10), 83);
    assert_eq!(scaled_product(i128::MAX, 1_000, 1_000), i128::MAX);
    assert_eq!(scaled_product(i128::MAX, i128::MIN, 1_000), i128::MIN);
    assert_eq!(scaled_product(i128::MIN, 10, 1_000), i128::MIN / 100);
    for a in -25..25i128 {
        for b in -25..25i128 {
            assert_eq!(scaled_product(a, b, 7), a * b / 7);
        }
    }
}

#[test]
fn tables_keep_the_last_value_of_a_key() {
    let mut table: Table<(String, u32), i128> = Table::new();
    let key = ("deal".to_string(), 1);
    assert!(!table.has(&key));
    table.set(("deal".to_string(), 1), 5);
    table.set(("deal".to_string(), 2), 6);
    table.set(("deal".to_string(), 1), 7);
    assert_eq!(table.get(&key), Some(&7));
    assert_eq!(table.get(&("deal".to_string(), 2)), Some(&6));
    assert_eq!(table.get(&("lead".to_string(), 1)), None);
    table.remove(&key);
    assert!(!table.has(&key));
    assert!(table.has(&("deal".to_string(), 2)));
}
