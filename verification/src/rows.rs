//! From fetched rows to entities: what a row must hold, and what a failed
//! fetch leaves.
use crate::model::{Customer, CustomerView, Item, ItemView, Order, OrderView};
use vstd::prelude::*;

verus! {

/// Why a row is no entity.
#[derive(Debug, PartialEq, Eq, Clone, Copy)]
pub enum RowError {
    /// The row's description is null.
    MissingDescription,
    /// The row's reference to its parent is null.
    MissingParent,
}

/// The customer of a row, if the row is complete.
pub open spec fn customer_of_row(customer_id: i64, description: Option<Seq<char>>) -> Result<
    CustomerView,
    RowError,
> {
    match description {
        Some(text) => Ok(CustomerView { customer_id, description: text, orders: Seq::empty() }),
        None => Err(RowError::MissingDescription),
    }
}

/// The order of a row, if the row is complete; a null description is
/// reported before a null parent.
pub open spec fn order_of_row(
    order_id: i64,
    description: Option<Seq<char>>,
    customer_id: Option<i64>,
) -> Result<OrderView, RowError> {
    match (description, customer_id) {
        (None, _) => Err(RowError::MissingDescription),
        (Some(_), None) => Err(RowError::MissingParent),
        (Some(text), Some(parent)) => Ok(
            OrderView { order_id, description: text, customer_id: parent, items: Seq::empty() },
        ),
    }
}

/// The item of a row, if the row is complete; a null description is
/// reported before a null parent.
pub open spec fn item_of_row(
    item_id: i64,
    description: Option<Seq<char>>,
    order_id: Option<i64>,
) -> Result<ItemView, RowError> {
    match (description, order_id) {
        (None, _) => Err(RowError::MissingDescription),
        (Some(_), None) => Err(RowError::MissingParent),
        (Some(text), Some(parent)) => Ok(
            ItemView { item_id, description: text, order_id: parent },
        ),
    }
}

/// The text that an optional string holds.
pub open spec fn text_of(description: Option<String>) -> Option<Seq<char>> {
    match description {
        Some(text) => Some(text@),
        None => None,
    }
}

/// The view of a converted row, or its error.
pub open spec fn customer_result_view(res: Result<Customer, RowError>) -> Result<
    CustomerView,
    RowError,
> {
    match res {
        Ok(customer) => Ok(customer@),
        Err(e) => Err(e),
    }
}

/// The view of a converted row, or its error.
pub open spec fn order_result_view(res: Result<Order, RowError>) -> Result<OrderView, RowError> {
    match res {
        Ok(order) => Ok(order@),
        Err(e) => Err(e),
    }
}

/// The view of a converted row, or its error.
pub open spec fn item_result_view(res: Result<Item, RowError>) -> Result<ItemView, RowError> {
    match res {
        Ok(item) => Ok(item@),
        Err(e) => Err(e),
    }
}

/// Converts a customer row; the new customer has no orders yet.
pub fn customer_from_row(customer_id: i64, description: Option<String>) -> (res: Result<
    Customer,
    RowError,
>)
    ensures
        customer_result_view(res) == customer_of_row(customer_id, text_of(description)),
{
    match description {
        Some(text) => {
            let customer = Customer { customer_id, description: text, orders: Vec::new() };
            assert(customer@.orders =~= Seq::empty());
            Ok(customer)
        },
        None => Err(RowError::MissingDescription),
    }
}

/// Converts an order row; the new order has no items yet.
pub fn order_from_row(order_id: i64, description: Option<String>, customer_id: Option<i64>) -> (res:
    Result<Order, RowError>)
    ensures
        order_result_view(res) == order_of_row(order_id, text_of(description), customer_id),
{
    match description {
        None => Err(RowError::MissingDescription),
        Some(text) => match customer_id {
            None => Err(RowError::MissingParent),
            Some(parent) => {
                let order = Order {
                    order_id,
                    description: text,
                    customer_id: parent,
                    items: Vec::new(),
                };
                assert(order@.items =~= Seq::empty());
                Ok(order)
            },
        },
    }
}

/// Converts an item row.
pub fn item_from_row(item_id: i64, description: Option<String>, order_id: Option<i64>) -> (res:
    Result<Item, RowError>)
    ensures
        item_result_view(res) == item_of_row(item_id, text_of(description), order_id),
{
    match description {
        None => Err(RowError::MissingDescription),
        Some(text) => match order_id {
            None => Err(RowError::MissingParent),
            Some(parent) => Ok(Item { item_id, description: text, order_id: parent }),
        },
    }
}

/// What a fetch leaves to the rest of the run: its rows, or no rows where
/// the fetch failed.
pub fn rows_or_empty<T, E>(fetched: Result<Vec<T>, E>) -> (rows: Vec<T>)
    ensures
        match fetched {
            Ok(found) => rows == found,
            Err(_) => rows@ == Seq::<T>::empty(),
        },
{
    match fetched {
        Ok(found) => found,
        Err(_) => Vec::new(),
    }
}

} // verus!
