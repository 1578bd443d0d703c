//! The two enrichment passes: items into orders, then orders into customers.
//!
//! A child whose parent is in no row of the parent table is left out of the
//! documents without an error. Whether that is meant (parents deleted in
//! place, say) or an oversight is an open question for the owner of the data;
//! the behaviour is kept as it is.
use crate::grouping::{
    group_items, group_orders, item_groups, item_index_view, order_groups, order_index_view,
};
use crate::model::{
    clone_items, clone_orders, customer_views, item_views, order_views, Customer, CustomerView,
    Item, ItemView, Order, OrderView,
};
use rayon::iter::{IntoParallelRefIterator, ParallelIterator};
use std::collections::HashMap;
use vstd::prelude::*;

verus! {

/// An order after the first pass: where its identity has a group, the group
/// replaces its items; where it has none, the order is left as it was.
pub open spec fn with_items(o: OrderView, groups: Map<i64, Seq<ItemView>>) -> OrderView {
    if groups.contains_key(o.order_id) {
        OrderView { items: groups[o.order_id], ..o }
    } else {
        o
    }
}

/// A customer after the second pass: where its identity has a group, the
/// group replaces its orders; where it has none, the customer is left as it was.
pub open spec fn with_orders(c: CustomerView, groups: Map<i64, Seq<OrderView>>) -> CustomerView {
    if groups.contains_key(c.customer_id) {
        CustomerView { orders: groups[c.customer_id], ..c }
    } else {
        c
    }
}

/// The first pass over a whole list: each order enriched in its place.
pub open spec fn enriched_orders(orders: Seq<OrderView>, groups: Map<i64, Seq<ItemView>>) -> Seq<
    OrderView,
> {
    Seq::new(orders.len(), |i: int| with_items(orders[i], groups))
}

/// The second pass over a whole list: each customer enriched in its place.
pub open spec fn enriched_customers(
    customers: Seq<CustomerView>,
    groups: Map<i64, Seq<OrderView>>,
) -> Seq<CustomerView> {
    Seq::new(customers.len(), |i: int| with_orders(customers[i], groups))
}

/// The nested documents of three flat tables: orders take their items, the
/// enriched orders are grouped anew, and customers take their orders.
pub open spec fn denormalized(
    customers: Seq<CustomerView>,
    orders: Seq<OrderView>,
    items: Seq<ItemView>,
) -> Seq<CustomerView> {
    enriched_customers(customers, order_groups(enriched_orders(orders, item_groups(items))))
}

/// Attaches to an order a copy of the items grouped under its identity.
pub fn sort_data_orders(order: Order, items_map: &HashMap<i64, Vec<Item>>) -> (res: Order)
    ensures
        res@ == with_items(order@, item_index_view(items_map@)),
{
    let mut order = order;
    match items_map.get(&order.order_id) {
        Some(items) => {
            order.items = clone_items(items);
        },
        None => {},
    }
    order
}

/// Attaches to a customer a copy of the orders grouped under its identity.
pub fn sort_data_customers(customer: Customer, orders_map: &HashMap<i64, Vec<Order>>) -> (res:
    Customer)
    ensures
        res@ == with_orders(customer@, order_index_view(orders_map@)),
{
    let mut customer = customer;
    match orders_map.get(&customer.customer_id) {
        Some(orders) => {
            customer.orders = clone_orders(orders);
        },
        None => {},
    }
    customer
}

/// Runs `sort_data_orders` on a copy of every order through rayon's
/// `par_iter().map(..).collect()`. Trusted: the collected vector has one
/// result per input, each at the position of its input, as rayon documents
/// for indexed parallel iterators collected into a `Vec`.
#[verifier::external_body]
fn par_enrich_orders(orders: &Vec<Order>, items_map: &HashMap<i64, Vec<Item>>) -> (res: Vec<Order>)
    ensures
        order_views(res@) == enriched_orders(order_views(orders@), item_index_view(items_map@)),
{
    orders.par_iter().map(|order| sort_data_orders(order.clone(), items_map)).collect()
}

/// Runs `sort_data_customers` on a copy of every customer through rayon's
/// `par_iter().map(..).collect()`. Trusted: the collected vector has one
/// result per input, each at the position of its input, as rayon documents
/// for indexed parallel iterators collected into a `Vec`.
#[verifier::external_body]
fn par_enrich_customers(customers: &Vec<Customer>, orders_map: &HashMap<i64, Vec<Order>>) -> (res:
    Vec<Customer>)
    ensures
        customer_views(res@) == enriched_customers(
            customer_views(customers@),
            order_index_view(orders_map@),
        ),
{
    customers.par_iter().map(|customer| sort_data_customers(customer.clone(), orders_map)).collect()
}

/// The first pass: every order with its items, in the order of the input.
pub fn enrich_orders(orders: &Vec<Order>, items: &Vec<Item>) -> (res: Vec<Order>)
    ensures
        order_views(res@) == enriched_orders(order_views(orders@), item_groups(item_views(items@))),
{
    let items_map = group_items(items);
    par_enrich_orders(orders, &items_map)
}

/// The second pass: every customer with its orders, in the order of the input.
pub fn enrich_customers(customers: &Vec<Customer>, orders: &Vec<Order>) -> (res: Vec<Customer>)
    ensures
        customer_views(res@) == enriched_customers(
            customer_views(customers@),
            order_groups(order_views(orders@)),
        ),
{
    let orders_map = group_orders(orders);
    par_enrich_customers(customers, &orders_map)
}

/// Both passes in sequence: the nested customer documents of the three tables.
pub fn denormalize(customers: &Vec<Customer>, orders: &Vec<Order>, items: &Vec<Item>) -> (res: Vec<
    Customer,
>)
    ensures
        customer_views(res@) == denormalized(
            customer_views(customers@),
            order_views(orders@),
            item_views(items@),
        ),
{
    let enriched = enrich_orders(orders, items);
    enrich_customers(customers, &enriched)
}

} // verus!
