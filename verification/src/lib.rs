//! Household budgeting: categories, monthly budget entries, transactions and
//! per-month summaries, with the rules that keep them consistent.
//!
//! - `types`: self-validating values (money, months, due days, category
//!   names, dates, identifiers, instants).
//! - `entities`: the records, and `errors`: what can go wrong with them.
//! - `ports`: what the services require of the store.
//! - `services`: the operations, and the decisions that they rest on.
//! - `api`: what the HTTP interface adds, and `store`: what a relational
//!   store needs.
//! - `text` and `sequences`: the helpers underneath.
//!
//! Contracts are stated over the views of the values: a text is the
//! sequence of its characters, an amount an integer, a month a pair of
//! integers. The calls into `ulid` and `chrono` are the only code that is
//! not verified: each is a small function whose contract names what the
//! crate returns. Of the standard library, `String::push` is specified
//! here.

pub mod api;
pub mod entities;
pub mod errors;
pub mod ports;
pub mod sequences;
pub mod services;
pub mod store;
pub mod text;
pub mod types;
