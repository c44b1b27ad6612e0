//! Personal-finance bookkeeping: users, bank accounts and transactions kept
//! in tables, with bearer-token authentication guards in front of them.

pub mod api;
pub mod authentication;
pub mod calendar;
pub mod laws;
pub mod models;
pub mod result_variant;
pub mod routes;
pub mod select;
mod text;
