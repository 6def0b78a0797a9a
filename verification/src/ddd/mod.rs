//! A small ledger of customers: balances, orders, and the events that change
//! them.

pub mod customer;
pub mod money;
pub mod service;
