//! Declarative schema migration: compare the schema a database has with the
//! schema it should have, and plan the DDL statements that lead from one to
//! the other.
//!
//! The schema is held in the library's own object model: tables with their
//! columns and constraints ([`table`], [`column`], [`constraint`]), indexes
//! ([`index`]) and extensions, gathered as catalog objects
//! ([`altertable::Wrapped`]). Expressions and data types are held as their
//! canonical SQL text, so that two of them are the same exactly when they
//! read the same once parsed.
//!
//! Planning is a pure function of two lists of objects:
//! [`altertable::from_to`] matches them by kind and name, hands matched
//! tables to the table differ ([`table_diff`], [`column_diff`],
//! [`constraint_diff`]), and gives the plan ([`plan`]) or the reason why
//! there is none ([`error`]). A change it cannot make safely is refused,
//! never guessed. [`laws`] states what holds of every plan.
//!
//! Around it stand what takes the statements of a declared schema
//! ([`schema`]), what reads catalog rows into objects
//! ([`source_postgres`]), the decisions of the command line ([`cli`]) and
//! the order in which a plan is applied ([`apply`]).

pub mod altertable;
pub mod apply;
pub mod cli;
pub mod column;
pub mod column_diff;
pub mod constraint;
pub mod constraint_diff;
pub mod error;
pub mod index;
pub mod laws;
pub mod name;
pub mod plan;
pub mod results;
pub mod schema;
pub mod search;
pub mod source_postgres;
pub mod table;
pub mod table_diff;
pub mod views;

pub use crate::error::MigrationError;
