//! What holds of the nested documents, whatever the three tables contain.
use crate::denormalize::{denormalized, enriched_customers, enriched_orders};
use crate::grouping::{item_groups, items_of_order, order_groups, orders_of_customer};
use crate::model::{CustomerView, ItemView, OrderView};
use vstd::prelude::*;

verus! {

/// An order identity has a group exactly when some item names it: no group
/// is empty.
pub proof fn law_group_present_iff_named(items: Seq<ItemView>, order_id: i64)
    ensures
        item_groups(items).contains_key(order_id) <==> exists|i: int|
            0 <= i < items.len() && (#[trigger] items[i]).order_id == order_id,
{
    let named = |it: ItemView| it.order_id == order_id;
    let own = items_of_order(items, order_id);
    if own.len() > 0 {
        items.lemma_filter_pred(named, 0);
        items.lemma_filter_contains_rev(named, own[0]);
        let i = choose|i: int| 0 <= i < items.len() && items[i] == own[0];
        assert(items[i].order_id == order_id);
    }
    if exists|i: int| 0 <= i < items.len() && (#[trigger] items[i]).order_id == order_id {
        let i = choose|i: int| 0 <= i < items.len() && (#[trigger] items[i]).order_id == order_id;
        items.lemma_filter_contains(named, i);
    }
}

/// Every item stands in the group of the order that it names, and every
/// member of a group names the group's order.
pub proof fn law_item_in_its_group(items: Seq<ItemView>, i: int, order_id: i64)
    requires
        0 <= i < items.len(),
    ensures
        items_of_order(items, order_id).contains(items[i]) <==> items[i].order_id == order_id,
{
    let named = |it: ItemView| it.order_id == order_id;
    let own = items_of_order(items, order_id);
    if items[i].order_id == order_id {
        items.lemma_filter_contains(named, i);
    }
    if own.contains(items[i]) {
        let n = choose|n: int| 0 <= n < own.len() && own[n] == items[i];
        items.lemma_filter_pred(named, n);
    }
}

/// Both passes keep every parent at its place, with its identity and its
/// description: only the children change.
pub proof fn law_parents_keep_their_places(
    customers: Seq<CustomerView>,
    orders: Seq<OrderView>,
    items: Seq<ItemView>,
)
    ensures
        enriched_orders(orders, item_groups(items)).len() == orders.len(),
        forall|j: int|
            0 <= j < orders.len() ==> {
                let after = #[trigger] enriched_orders(orders, item_groups(items))[j];
                &&& after.order_id == orders[j].order_id
                &&& after.description == orders[j].description
                &&& after.customer_id == orders[j].customer_id
            },
        denormalized(customers, orders, items).len() == customers.len(),
        forall|j: int|
            0 <= j < customers.len() ==> {
                let after = #[trigger] denormalized(customers, orders, items)[j];
                &&& after.customer_id == customers[j].customer_id
                &&& after.description == customers[j].description
            },
{
}

/// An order that came without items holds, after the first pass, exactly the
/// items that name it, in the order of the item table.
pub proof fn law_order_holds_its_items(orders: Seq<OrderView>, items: Seq<ItemView>, j: int)
    requires
        0 <= j < orders.len(),
        orders[j].items.len() == 0,
    ensures
        enriched_orders(orders, item_groups(items))[j].items == items_of_order(
            items,
            orders[j].order_id,
        ),
{
    let own = items_of_order(items, orders[j].order_id);
    if own.len() == 0 {
        assert(own =~= orders[j].items);
    }
}

/// An item is in no order but the one that it names: an order that came
/// without items and has another identity does not hold it after the first pass.
pub proof fn law_item_in_no_other_order(
    orders: Seq<OrderView>,
    items: Seq<ItemView>,
    j: int,
    x: ItemView,
)
    requires
        0 <= j < orders.len(),
        orders[j].items.len() == 0,
        orders[j].order_id != x.order_id,
    ensures
        !enriched_orders(orders, item_groups(items))[j].items.contains(x),
{
    law_order_holds_its_items(orders, items, j);
    let own = items_of_order(items, orders[j].order_id);
    if own.contains(x) {
        let n = choose|n: int| 0 <= n < own.len() && own[n] == x;
        items.lemma_filter_pred(|it: ItemView| it.order_id == orders[j].order_id, n);
    }
}

/// A customer that came without orders holds, after both passes, exactly the
/// enriched orders that name it, in the order of the order table.
pub proof fn law_customer_holds_its_orders(
    customers: Seq<CustomerView>,
    orders: Seq<OrderView>,
    items: Seq<ItemView>,
    j: int,
)
    requires
        0 <= j < customers.len(),
        customers[j].orders.len() == 0,
    ensures
        denormalized(customers, orders, items)[j].orders == orders_of_customer(
            enriched_orders(orders, item_groups(items)),
            customers[j].customer_id,
        ),
{
    let own = orders_of_customer(
        enriched_orders(orders, item_groups(items)),
        customers[j].customer_id,
    );
    if own.len() == 0 {
        assert(own =~= customers[j].orders);
    }
}

/// An order whose customer is in no row of the customer table is in no
/// customer's orders, and no customer is lost over it.
pub proof fn law_orphan_order_is_dropped(
    customers: Seq<CustomerView>,
    orders: Seq<OrderView>,
    items: Seq<ItemView>,
    orphan: OrderView,
)
    requires
        forall|j: int| 0 <= j < customers.len() ==> (#[trigger] customers[j]).orders.len() == 0,
        forall|j: int|
            0 <= j < customers.len() ==> (#[trigger] customers[j]).customer_id
                != orphan.customer_id,
    ensures
        denormalized(customers, orders, items).len() == customers.len(),
        forall|j: int|
            0 <= j < customers.len() ==> !(#[trigger] denormalized(
                customers,
                orders,
                items,
            )[j]).orders.contains(orphan),
{
    let enriched = enriched_orders(orders, item_groups(items));
    assert forall|j: int| 0 <= j < customers.len() implies !(#[trigger] denormalized(
        customers,
        orders,
        items,
    )[j]).orders.contains(orphan) by {
        law_customer_holds_its_orders(customers, orders, items, j);
        let own = orders_of_customer(enriched, customers[j].customer_id);
        if own.contains(orphan) {
            let n = choose|n: int| 0 <= n < own.len() && own[n] == orphan;
            enriched.lemma_filter_pred(|o: OrderView| o.customer_id == customers[j].customer_id, n);
        }
    }
}

/// Leaving out an order that belongs to another customer does not change
/// the orders of a customer.
proof fn lemma_orders_of_customer_remove(orders: Seq<OrderView>, k: int, customer_id: i64)
    requires
        0 <= k < orders.len(),
        orders[k].customer_id != customer_id,
    ensures
        orders_of_customer(orders.remove(k), customer_id) == orders_of_customer(
            orders,
            customer_id,
        ),
{
    let named = |o: OrderView| o.customer_id == customer_id;
    let head = orders.take(k);
    let one = seq![orders[k]];
    let tail = orders.skip(k + 1);
    assert(orders =~= head + one + tail);
    assert(orders.remove(k) =~= head + tail);
    Seq::filter_distributes_over_add(head + one, tail, named);
    Seq::filter_distributes_over_add(head, one, named);
    Seq::filter_distributes_over_add(head, tail, named);
    assert(one.filter(named) =~= Seq::<OrderView>::empty()) by {
        reveal_with_fuel(Seq::filter, 2);
        assert(one.drop_last() =~= Seq::<OrderView>::empty());
    }
    assert(head.filter(named) + one.filter(named) =~= head.filter(named));
}

/// Leaving out an item that belongs to another order does not change the
/// items of an order.
proof fn lemma_items_of_order_remove(items: Seq<ItemView>, k: int, order_id: i64)
    requires
        0 <= k < items.len(),
        items[k].order_id != order_id,
    ensures
        items_of_order(items.remove(k), order_id) == items_of_order(items, order_id),
{
    let named = |it: ItemView| it.order_id == order_id;
    let head = items.take(k);
    let one = seq![items[k]];
    let tail = items.skip(k + 1);
    assert(items =~= head + one + tail);
    assert(items.remove(k) =~= head + tail);
    Seq::filter_distributes_over_add(head + one, tail, named);
    Seq::filter_distributes_over_add(head, one, named);
    Seq::filter_distributes_over_add(head, tail, named);
    assert(one.filter(named) =~= Seq::<ItemView>::empty()) by {
        reveal_with_fuel(Seq::filter, 2);
        assert(one.drop_last() =~= Seq::<ItemView>::empty());
    }
    assert(head.filter(named) + one.filter(named) =~= head.filter(named));
}

/// An order whose customer is in no row of the customer table has no part in
/// the documents: without it they are the same.
pub proof fn law_orphan_order_changes_nothing(
    customers: Seq<CustomerView>,
    orders: Seq<OrderView>,
    items: Seq<ItemView>,
    k: int,
)
    requires
        0 <= k < orders.len(),
        forall|j: int|
            0 <= j < customers.len() ==> (#[trigger] customers[j]).customer_id
                != orders[k].customer_id,
    ensures
        denormalized(customers, orders.remove(k), items) == denormalized(customers, orders, items),
{
    let groups = item_groups(items);
    let with_it = enriched_orders(orders, groups);
    let without = enriched_orders(orders.remove(k), groups);
    assert(without =~= with_it.remove(k));
    assert forall|j: int| 0 <= j < customers.len() implies #[trigger] denormalized(
        customers,
        orders.remove(k),
        items,
    )[j] == denormalized(customers, orders, items)[j] by {
        lemma_orders_of_customer_remove(with_it, k, customers[j].customer_id);
    }
    assert(denormalized(customers, orders.remove(k), items) =~= denormalized(
        customers,
        orders,
        items,
    ));
}

/// An item whose order is in no row of the order table has no part in the
/// enriched orders: without it they are the same.
pub proof fn law_orphan_item_changes_nothing(
    orders: Seq<OrderView>,
    items: Seq<ItemView>,
    k: int,
)
    requires
        0 <= k < items.len(),
        forall|j: int|
            0 <= j < orders.len() ==> (#[trigger] orders[j]).order_id != items[k].order_id,
    ensures
        enriched_orders(orders, item_groups(items.remove(k))) == enriched_orders(
            orders,
            item_groups(items),
        ),
{
    assert forall|j: int| 0 <= j < orders.len() implies #[trigger] enriched_orders(
        orders,
        item_groups(items.remove(k)),
    )[j] == enriched_orders(orders, item_groups(items))[j] by {
        lemma_items_of_order_remove(items, k, orders[j].order_id);
    }
    assert(enriched_orders(orders, item_groups(items.remove(k))) =~= enriched_orders(
        orders,
        item_groups(items),
    ));
}

/// Two runs on the same three tables give the same documents.
pub proof fn law_denormalize_repeatable(
    first: Seq<CustomerView>,
    second: Seq<CustomerView>,
    customers: Seq<CustomerView>,
    orders: Seq<OrderView>,
    items: Seq<ItemView>,
)
    requires
        first == denormalized(customers, orders, items),
        second == denormalized(customers, orders, items),
    ensures
        first == second,
{
}

/// A second run that starts from the documents of the first, with the same
/// order and item tables, changes nothing.
pub proof fn law_denormalize_idempotent(
    customers: Seq<CustomerView>,
    orders: Seq<OrderView>,
    items: Seq<ItemView>,
)
    ensures
        denormalized(denormalized(customers, orders, items), orders, items) == denormalized(
            customers,
            orders,
            items,
        ),
{
    let groups = order_groups(enriched_orders(orders, item_groups(items)));
    let once = enriched_customers(customers, groups);
    assert(enriched_customers(once, groups) =~= once);
}

} // verus!
