//! An inventory and billing ledger kept in a SQLite store.
//!
//! The library tracks products, records sales as bills made of line items,
//! and keeps an append-only archive of removed products. What is asked of
//! the store is decided here and carried out by the engine: the statements
//! that reach it stand in [`sqlite`], the order in which the atomic units
//! issue them in [`unit`], and the picture of the store that those units
//! are proved against in [`ledger`] and [`laws`].

pub mod amount;
pub mod bill;
pub mod db;
pub mod error;
pub mod laws;
pub mod ledger;
pub mod lemmas;
pub mod product;
pub mod sqlite;
pub mod text;
pub mod unit;
