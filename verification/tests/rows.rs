use denormalizer::model::{Customer, Item, Order};
use denormalizer::rows::{
    customer_from_row, item_from_row, order_from_row, rows_or_empty, RowError,
};

#[test]
fn complete_rows_become_entities() {
    assert_eq!(
        customer_from_row(1, Some("A".to_string())),
        Ok(Customer { customer_id: 1, description: "A".to_string(), orders: vec![] })
    );
    assert_eq!(
        order_from_row(10, Some("O1".to_string()), Some(1)),
        Ok(Order { order_id: 10, description: "O1".to_string(), customer_id: 1, items: vec![] })
    );
    assert_eq!(
        item_from_row(100, Some("I1".to_string()), Some(10)),
        Ok(Item { item_id: 100, description: "I1".to_string(), order_id: 10 })
    );
}

#[test]
fn null_description_is_refused() {
    assert_eq!(customer_from_row(1, None), Err(RowError::MissingDescription));
    assert_eq!(order_from_row(10, None, Some(1)), Err(RowError::MissingDescription));
    assert_eq!(item_from_row(100, None, Some(10)), Err(RowError::MissingDescription));
    assert_eq!(order_from_row(10, None, None), Err(RowError::MissingDescription));
    assert_eq!(item_from_row(100, None, None), Err(RowError::MissingDescription));
}

#[test]
fn null_parent_is_refused() {
    assert_eq!(order_from_row(10, Some("O1".to_string()), None), Err(RowError::MissingParent));
    assert_eq!(item_from_row(100, Some("I1".to_string()), None), Err(RowError::MissingParent));
}

#[test]
fn failed_fetch_leaves_no_rows() {
    let failed: Result<Vec<i64>, String> = Err("unreachable".to_string());
    assert_eq!(rows_or_empty(failed), Vec::<i64>::new());
    let found: Result<Vec<i64>, String> = Ok(vec![3, 1, 2]);
    assert_eq!(rows_or_empty(found), vec![3, 1, 2]);
}
