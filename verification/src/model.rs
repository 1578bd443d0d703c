//! The three entities, their mathematical views, and copies that keep the view.
use vstd::prelude::*;

verus! {

/// A leaf row: one item of an order.
#[derive(Debug, PartialEq, Eq)]
pub struct Item {
    pub item_id: i64,
    pub description: String,
    pub order_id: i64,
}

/// An order of a customer; `items` is empty until the order is enriched.
#[derive(Debug, PartialEq, Eq)]
pub struct Order {
    pub order_id: i64,
    pub description: String,
    pub customer_id: i64,
    pub items: Vec<Item>,
}

/// A customer; `orders` is empty until the customer is enriched.
#[derive(Debug, PartialEq, Eq)]
pub struct Customer {
    pub customer_id: i64,
    pub description: String,
    pub orders: Vec<Order>,
}

/// What an `Item` is: its fields, the text as a sequence of characters.
pub ghost struct ItemView {
    pub item_id: i64,
    pub description: Seq<char>,
    pub order_id: i64,
}

/// What an `Order` is: its fields and the views of its items, in order.
pub ghost struct OrderView {
    pub order_id: i64,
    pub description: Seq<char>,
    pub customer_id: i64,
    pub items: Seq<ItemView>,
}

/// What a `Customer` is: its fields and the views of its orders, in order.
pub ghost struct CustomerView {
    pub customer_id: i64,
    pub description: Seq<char>,
    pub orders: Seq<OrderView>,
}

impl View for Item {
    type V = ItemView;

    open spec fn view(&self) -> ItemView {
        ItemView {
            item_id: self.item_id,
            description: self.description@,
            order_id: self.order_id,
        }
    }
}

/// The views of a sequence of items, position by position.
pub open spec fn item_views(s: Seq<Item>) -> Seq<ItemView> {
    Seq::new(s.len(), |i: int| s[i]@)
}

impl View for Order {
    type V = OrderView;

    open spec fn view(&self) -> OrderView {
        OrderView {
            order_id: self.order_id,
            description: self.description@,
            customer_id: self.customer_id,
            items: item_views(self.items@),
        }
    }
}

/// The views of a sequence of orders, position by position.
pub open spec fn order_views(s: Seq<Order>) -> Seq<OrderView> {
    Seq::new(s.len(), |i: int| s[i]@)
}

impl View for Customer {
    type V = CustomerView;

    open spec fn view(&self) -> CustomerView {
        CustomerView {
            customer_id: self.customer_id,
            description: self.description@,
            orders: order_views(self.orders@),
        }
    }
}

/// The views of a sequence of customers, position by position.
pub open spec fn customer_views(s: Seq<Customer>) -> Seq<CustomerView> {
    Seq::new(s.len(), |i: int| s[i]@)
}

impl Clone for Item {
    fn clone(&self) -> (res: Item)
        ensures
            res@ == self@,
    {
        Item {
            item_id: self.item_id,
            description: self.description.clone(),
            order_id: self.order_id,
        }
    }
}

/// A copy of a list of items: the same views in the same order.
pub fn clone_items(items: &Vec<Item>) -> (res: Vec<Item>)
    ensures
        item_views(res@) == item_views(items@),
{
    let mut res: Vec<Item> = Vec::with_capacity(items.len());
    let mut i: usize = 0;
    while i < items.len()
        invariant
            i <= items.len(),
            res@.len() == i,
            forall|j: int| 0 <= j < i ==> res@[j]@ == items@[j]@,
        decreases items.len() - i,
    {
        res.push(items[i].clone());
        i += 1;
    }
    assert(item_views(res@) =~= item_views(items@));
    res
}

impl Clone for Order {
    fn clone(&self) -> (res: Order)
        ensures
            res@ == self@,
    {
        Order {
            order_id: self.order_id,
            description: self.description.clone(),
            customer_id: self.customer_id,
            items: clone_items(&self.items),
        }
    }
}

/// A copy of a list of orders: the same views in the same order.
pub fn clone_orders(orders: &Vec<Order>) -> (res: Vec<Order>)
    ensures
        order_views(res@) == order_views(orders@),
{
    let mut res: Vec<Order> = Vec::with_capacity(orders.len());
    let mut i: usize = 0;
    while i < orders.len()
        invariant
            i <= orders.len(),
            res@.len() == i,
            forall|j: int| 0 <= j < i ==> res@[j]@ == orders@[j]@,
        decreases orders.len() - i,
    {
        res.push(orders[i].clone());
        i += 1;
    }
    assert(order_views(res@) =~= order_views(orders@));
    res
}

impl Clone for Customer {
    fn clone(&self) -> (res: Customer)
        ensures
            res@ == self@,
    {
        Customer {
            customer_id: self.customer_id,
            description: self.description.clone(),
            orders: clone_orders(&self.orders),
        }
    }
}

} // verus!
