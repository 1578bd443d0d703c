//! The grouping index: children keyed by their parent's identity.
use crate::model::{item_views, order_views, Item, ItemView, Order, OrderView};
use std::collections::HashMap;
use vstd::prelude::*;

verus! {

/// The items whose parent is `order_id`, in the order in which they stand.
pub open spec fn items_of_order(items: Seq<ItemView>, order_id: i64) -> Seq<ItemView> {
    items.filter(|it: ItemView| it.order_id == order_id)
}

/// The orders whose parent is `customer_id`, in the order in which they stand.
pub open spec fn orders_of_customer(orders: Seq<OrderView>, customer_id: i64) -> Seq<OrderView> {
    orders.filter(|o: OrderView| o.customer_id == customer_id)
}

/// The grouping of items by order: a key is present exactly when some item
/// names it, and maps to all the items that do.
pub open spec fn item_groups(items: Seq<ItemView>) -> Map<i64, Seq<ItemView>> {
    Map::new(
        |k: i64| items_of_order(items, k).len() > 0,
        |k: i64| items_of_order(items, k),
    )
}

/// The grouping of orders by customer: a key is present exactly when some
/// order names it, and maps to all the orders that do.
pub open spec fn order_groups(orders: Seq<OrderView>) -> Map<i64, Seq<OrderView>> {
    Map::new(
        |k: i64| orders_of_customer(orders, k).len() > 0,
        |k: i64| orders_of_customer(orders, k),
    )
}

/// What an item index holds: each key with the views of its group.
pub open spec fn item_index_view(m: Map<i64, Vec<Item>>) -> Map<i64, Seq<ItemView>> {
    Map::new(|k: i64| m.contains_key(k), |k: i64| item_views(m[k]@))
}

/// What an order index holds: each key with the views of its group.
pub open spec fn order_index_view(m: Map<i64, Vec<Order>>) -> Map<i64, Seq<OrderView>> {
    Map::new(|k: i64| m.contains_key(k), |k: i64| order_views(m[k]@))
}

/// One more item at the end joins the group of its own order and no other.
pub proof fn lemma_items_of_order_push(items: Seq<ItemView>, x: ItemView, order_id: i64)
    ensures
        items_of_order(items.push(x), order_id) == if x.order_id == order_id {
            items_of_order(items, order_id).push(x)
        } else {
            items_of_order(items, order_id)
        },
{
    reveal(Seq::filter);
    assert(items.push(x).drop_last() =~= items);
}

/// One more order at the end joins the group of its own customer and no other.
pub proof fn lemma_orders_of_customer_push(orders: Seq<OrderView>, x: OrderView, customer_id: i64)
    ensures
        orders_of_customer(orders.push(x), customer_id) == if x.customer_id == customer_id {
            orders_of_customer(orders, customer_id).push(x)
        } else {
            orders_of_customer(orders, customer_id)
        },
{
    reveal(Seq::filter);
    assert(orders.push(x).drop_last() =~= orders);
}

/// Builds the item index in one pass: every item lands in the group of its
/// order, groups keep the input order, and no empty group exists.
pub fn group_items(items: &Vec<Item>) -> (index: HashMap<i64, Vec<Item>>)
    ensures
        item_index_view(index@) == item_groups(item_views(items@)),
{
    let mut index: HashMap<i64, Vec<Item>> = HashMap::new();
    let mut i: usize = 0;
    assert(item_views(items@).take(0) =~= Seq::<ItemView>::empty());
    assert(item_index_view(index@) =~= item_groups(Seq::<ItemView>::empty())) by {
        reveal(Seq::filter);
    }
    while i < items.len()
        invariant
            i <= items.len(),
            item_index_view(index@) == item_groups(item_views(items@).take(i as int)),
        decreases items.len() - i,
    {
        let ghost before = index@;
        let ghost seen = item_views(items@).take(i as int);
        let item = items[i].clone();
        let key: i64 = item.order_id;
        let group = index.entry(key).or_insert(Vec::new());
        group.push(item);
        proof {
            let x = items@[i as int]@;
            assert(item_views(items@).take(i + 1) =~= seen.push(x));
            assert(before.contains_key(key) == item_groups(seen).contains_key(key));
            assert(before.contains_key(key) ==> item_views(before[key]@) == item_groups(seen)[key]);
            let ghost now = item_index_view(index@);
            let ghost want = item_groups(seen.push(x));
            assert forall|k: i64|
                (#[trigger] now.dom().contains(k)) == want.dom().contains(k) && (now.dom().contains(
                    k,
                ) ==> now[k] == want[k]) by {
                lemma_items_of_order_push(seen, x, k);
                if k == key {
                    if before.contains_key(key) {
                        assert(item_views(index@[key]@) =~= item_views(before[key]@).push(x));
                    } else {
                        assert(items_of_order(seen, key).len() == 0);
                        assert(item_views(index@[key]@) =~= Seq::<ItemView>::empty().push(x));
                        assert(items_of_order(seen, key) =~= Seq::<ItemView>::empty());
                    }
                } else {
                    assert(index@.contains_key(k) == before.contains_key(k));
                    assert(item_index_view(before).contains_key(k) == item_groups(
                        seen,
                    ).contains_key(k));
                    if before.contains_key(k) {
                        assert(item_index_view(before)[k] == item_groups(seen)[k]);
                    }
                }
            }
            assert(now =~= want);
        }
        i += 1;
    }
    assert(item_views(items@).take(items@.len() as int) =~= item_views(items@));
    index
}

/// Builds the order index in one pass: every order lands in the group of its
/// customer, groups keep the input order, and no empty group exists.
pub fn group_orders(orders: &Vec<Order>) -> (index: HashMap<i64, Vec<Order>>)
    ensures
        order_index_view(index@) == order_groups(order_views(orders@)),
{
    let mut index: HashMap<i64, Vec<Order>> = HashMap::new();
    let mut i: usize = 0;
    assert(order_views(orders@).take(0) =~= Seq::<OrderView>::empty());
    assert(order_index_view(index@) =~= order_groups(Seq::<OrderView>::empty())) by {
        reveal(Seq::filter);
    }
    while i < orders.len()
        invariant
            i <= orders.len(),
            order_index_view(index@) == order_groups(order_views(orders@).take(i as int)),
        decreases orders.len() - i,
    {
        let ghost before = index@;
        let ghost seen = order_views(orders@).take(i as int);
        let order = orders[i].clone();
        let key: i64 = order.customer_id;
        let group = index.entry(key).or_insert(Vec::new());
        group.push(order);
        proof {
            let x = orders@[i as int]@;
            assert(order_views(orders@).take(i + 1) =~= seen.push(x));
            assert(before.contains_key(key) == order_groups(seen).contains_key(key));
            assert(before.contains_key(key) ==> order_views(before[key]@) == order_groups(seen)[key]);
            let ghost now = order_index_view(index@);
            let ghost want = order_groups(seen.push(x));
            assert forall|k: i64|
                (#[trigger] now.dom().contains(k)) == want.dom().contains(k) && (now.dom().contains(
                    k,
                ) ==> now[k] == want[k]) by {
                lemma_orders_of_customer_push(seen, x, k);
                if k == key {
                    if before.contains_key(key) {
                        assert(order_views(index@[key]@) =~= order_views(before[key]@).push(x));
                    } else {
                        assert(orders_of_customer(seen, key).len() == 0);
                        assert(order_views(index@[key]@) =~= Seq::<OrderView>::empty().push(x));
                        assert(orders_of_customer(seen, key) =~= Seq::<OrderView>::empty());
                    }
                } else {
                    assert(index@.contains_key(k) == before.contains_key(k));
                    assert(order_index_view(before).contains_key(k) == order_groups(
                        seen,
                    ).contains_key(k));
                    if before.contains_key(k) {
                        assert(order_index_view(before)[k] == order_groups(seen)[k]);
                    }
                }
            }
            assert(now =~= want);
        }
        i += 1;
    }
    assert(order_views(orders@).take(orders@.len() as int) =~= order_views(orders@));
    index
}

} // verus!
