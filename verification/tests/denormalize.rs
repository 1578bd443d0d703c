use denormalizer::denormalize::{
    denormalize, enrich_customers, enrich_orders, sort_data_customers, sort_data_orders,
};
use denormalizer::grouping::{group_items, group_orders};
use denormalizer::model::{clone_items, clone_orders, Customer, Item, Order};
use std::collections::HashMap;

fn item(item_id: i64, description: &str, order_id: i64) -> Item {
    Item { item_id, description: description.to_string(), order_id }
}

fn order(order_id: i64, description: &str, customer_id: i64) -> Order {
    Order { order_id, description: description.to_string(), customer_id, items: vec![] }
}

fn customer(customer_id: i64, description: &str) -> Customer {
    Customer { customer_id, description: description.to_string(), orders: vec![] }
}

#[test]
fn single_chain_is_nested() {
    let customers = vec![customer(1, "A")];
    let orders = vec![order(10, "O1", 1)];
    let items = vec![item(100, "I1", 10)];
    let out = denormalize(&customers, &orders, &items);
    let expected = vec![Customer {
        customer_id: 1,
        description: "A".to_string(),
        orders: vec![Order {
            order_id: 10,
            description: "O1".to_string(),
            customer_id: 1,
            items: vec![item(100, "I1", 10)],
        }],
    }];
    assert_eq!(out, expected);
}

#[test]
fn orphan_order_is_in_no_customer() {
    let customers = vec![customer(1, "A"), customer(2, "B")];
    let orders = vec![order(10, "O1", 999)];
    let items: Vec<Item> = vec![];
    let out = denormalize(&customers, &orders, &items);
    assert_eq!(out, vec![customer(1, "A"), customer(2, "B")]);
    for c in &out {
        assert!(c.orders.iter().all(|o| o.order_id != 10));
    }
}

#[test]
fn orphan_item_is_in_no_order() {
    let orders = vec![order(10, "O1", 1)];
    let items = vec![item(100, "I1", 77)];
    let out = enrich_orders(&orders, &items);
    assert_eq!(out, vec![order(10, "O1", 1)]);
}

#[test]
fn empty_tables_give_no_documents() {
    let out = denormalize(&vec![], &vec![order(1, "o", 1)], &vec![item(1, "i", 1)]);
    assert_eq!(out, Vec::<Customer>::new());
}

#[test]
fn group_items_keeps_input_order_within_a_group() {
    let items = vec![
        item(1, "a", 20),
        item(2, "b", 10),
        item(3, "c", 20),
        item(4, "d", 10),
        item(5, "e", 20),
    ];
    let index = group_items(&items);
    assert_eq!(index.len(), 2);
    assert_eq!(index[&20], vec![item(1, "a", 20), item(3, "c", 20), item(5, "e", 20)]);
    assert_eq!(index[&10], vec![item(2, "b", 10), item(4, "d", 10)]);
    assert!(!index.contains_key(&30));
}

#[test]
fn group_items_of_nothing_is_empty() {
    assert!(group_items(&vec![]).is_empty());
    assert!(group_orders(&vec![]).is_empty());
}

#[test]
fn group_orders_keeps_input_order_within_a_group() {
    let orders = vec![order(1, "a", 7), order(2, "b", 8), order(3, "c", 7)];
    let index = group_orders(&orders);
    assert_eq!(index.len(), 2);
    assert_eq!(index[&7], vec![order(1, "a", 7), order(3, "c", 7)]);
    assert_eq!(index[&8], vec![order(2, "b", 8)]);
}

#[test]
fn group_orders_carries_items_along() {
    let mut o = order(1, "a", 7);
    o.items = vec![item(5, "x", 1)];
    let index = group_orders(&vec![o.clone()]);
    assert_eq!(index[&7], vec![o]);
}

#[test]
fn sort_data_orders_takes_the_group() {
    let mut index: HashMap<i64, Vec<Item>> = HashMap::new();
    index.insert(10, vec![item(100, "I1", 10), item(101, "I2", 10)]);
    index.insert(11, vec![item(102, "I3", 11)]);
    let out = sort_data_orders(order(10, "O1", 1), &index);
    assert_eq!(out.order_id, 10);
    assert_eq!(out.description, "O1");
    assert_eq!(out.customer_id, 1);
    assert_eq!(out.items, vec![item(100, "I1", 10), item(101, "I2", 10)]);
}

#[test]
fn sort_data_orders_without_group_leaves_the_order() {
    let mut index: HashMap<i64, Vec<Item>> = HashMap::new();
    index.insert(11, vec![item(102, "I3", 11)]);
    let out = sort_data_orders(order(10, "O1", 1), &index);
    assert_eq!(out, order(10, "O1", 1));
}

#[test]
fn sort_data_customers_takes_the_group() {
    let mut index: HashMap<i64, Vec<Order>> = HashMap::new();
    index.insert(1, vec![order(10, "O1", 1)]);
    let out = sort_data_customers(customer(1, "A"), &index);
    assert_eq!(out.orders, vec![order(10, "O1", 1)]);
    let other = sort_data_customers(customer(2, "B"), &index);
    assert_eq!(other, customer(2, "B"));
}

#[test]
fn every_order_holds_exactly_its_items() {
    let orders = vec![order(1, "a", 1), order(2, "b", 1), order(3, "c", 2)];
    let items = vec![
        item(10, "p", 2),
        item(11, "q", 1),
        item(12, "r", 2),
        item(13, "s", 4),
        item(14, "t", 1),
    ];
    let out = enrich_orders(&orders, &items);
    assert_eq!(out.len(), 3);
    for (i, o) in out.iter().enumerate() {
        assert_eq!(o.order_id, orders[i].order_id);
        let own: Vec<Item> = items.iter().filter(|it| it.order_id == o.order_id).cloned().collect();
        assert_eq!(o.items, own);
    }
    assert_eq!(out[0].items, vec![item(11, "q", 1), item(14, "t", 1)]);
    assert_eq!(out[1].items, vec![item(10, "p", 2), item(12, "r", 2)]);
    assert_eq!(out[2].items, Vec::<Item>::new());
}

#[test]
fn every_customer_holds_exactly_its_orders() {
    let customers = vec![customer(1, "A"), customer(2, "B"), customer(3, "C")];
    let orders = vec![order(1, "a", 2), order(2, "b", 1), order(3, "c", 2), order(4, "d", 9)];
    let items = vec![item(10, "p", 3), item(11, "q", 1)];
    let out = denormalize(&customers, &orders, &items);
    let enriched = enrich_orders(&orders, &items);
    assert_eq!(out.len(), 3);
    for (i, c) in out.iter().enumerate() {
        assert_eq!(c.customer_id, customers[i].customer_id);
        assert_eq!(c.description, customers[i].description);
        let own: Vec<Order> =
            enriched.iter().filter(|o| o.customer_id == c.customer_id).cloned().collect();
        assert_eq!(c.orders, own);
    }
    assert_eq!(out[1].orders.len(), 2);
    assert_eq!(out[1].orders[0].items, vec![item(11, "q", 1)]);
    assert_eq!(out[1].orders[1].items, vec![item(10, "p", 3)]);
    assert_eq!(out[2].orders, Vec::<Order>::new());
}

#[test]
fn two_runs_give_the_same_documents() {
    let customers = vec![customer(1, "A"), customer(2, "B")];
    let orders = vec![order(1, "a", 2), order(2, "b", 1), order(3, "c", 2)];
    let items = vec![item(10, "p", 3), item(11, "q", 1), item(12, "r", 3)];
    let first = denormalize(&customers, &orders, &items);
    let second = denormalize(&customers, &orders, &items);
    assert_eq!(first, second);
    let again = denormalize(&first, &orders, &items);
    assert_eq!(again, first);
}

#[test]
fn enrich_customers_keeps_the_order_of_many() {
    let customers: Vec<Customer> = (0..500).map(|i| customer(i, "c")).collect();
    let orders: Vec<Order> = (0..1500).map(|i| order(i, "o", i % 500)).collect();
    let out = enrich_customers(&customers, &orders);
    assert_eq!(out.len(), 500);
    for (i, c) in out.iter().enumerate() {
        let i = i as i64;
        assert_eq!(c.customer_id, i);
        let ids: Vec<i64> = c.orders.iter().map(|o| o.order_id).collect();
        assert_eq!(ids, vec![i, i + 500, i + 1000]);
    }
}

#[test]
fn copies_are_equal_to_what_they_copy() {
    let items = vec![item(1, "a", 2), item(2, "b", 3)];
    assert_eq!(clone_items(&items), items);
    let mut o = order(2, "o", 1);
    o.items = items;
    let orders = vec![o.clone(), order(3, "p", 1)];
    assert_eq!(clone_orders(&orders), orders);
    let c = Customer { customer_id: 1, description: "A".to_string(), orders };
    assert_eq!(c.clone(), c);
    assert_eq!(o.clone(), o);
}

#[test]
fn documents_are_the_same_without_an_orphan_order() {
    let customers = vec![customer(1, "A"), customer(2, "B")];
    let with_orphan = vec![order(1, "a", 2), order(2, "lost", 5), order(3, "c", 1)];
    let without = vec![order(1, "a", 2), order(3, "c", 1)];
    let items = vec![item(10, "p", 2), item(11, "q", 3)];
    assert_eq!(
        denormalize(&customers, &with_orphan, &items),
        denormalize(&customers, &without, &items)
    );
}

#[test]
fn orders_are_the_same_without_an_orphan_item() {
    let orders = vec![order(1, "a", 2), order(3, "c", 1)];
    let with_orphan = vec![item(10, "p", 3), item(11, "lost", 8), item(12, "r", 1)];
    let without = vec![item(10, "p", 3), item(12, "r", 1)];
    assert_eq!(enrich_orders(&orders, &with_orphan), enrich_orders(&orders, &without));
}

#[test]
fn a_key_is_present_only_where_a_child_names_it() {
    let items = vec![item(1, "a", 5), item(2, "b", -3), item(3, "c", 5)];
    let index = group_items(&items);
    let mut keys: Vec<i64> = index.keys().copied().collect();
    keys.sort();
    assert_eq!(keys, vec![-3, 5]);
    for (key, group) in &index {
        assert!(!group.is_empty());
        assert!(group.iter().all(|it| it.order_id == *key));
    }
    let total: usize = index.values().map(|g| g.len()).sum();
    assert_eq!(total, items.len());
}

#[test]
fn order_given_with_items_keeps_them_where_no_item_names_it() {
    let mut given = order(10, "O1", 1);
    given.items = vec![item(1, "old", 10)];
    let out = enrich_orders(&vec![given.clone()], &vec![item(2, "other", 11)]);
    assert_eq!(out, vec![given]);
}
