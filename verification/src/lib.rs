//! Joins three flat tables (customers, orders, items) into nested customer
//! documents and frames them for a bulk write to a search index.
pub mod model;
pub mod grouping;
pub mod denormalize;
pub mod bulk;
pub mod laws;
pub mod rows;
