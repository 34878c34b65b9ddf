//! Table filters and row updates described as data, checked against a table's
//! schema and compiled into parameterized SQL statements.

pub mod auth;
pub mod document;
pub mod error;
pub mod facade;
pub mod filter;
pub mod literal;
pub mod query;
pub mod registry;
pub mod schema;
pub mod statement;
pub mod text;
pub mod updater;
