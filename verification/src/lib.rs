//! People kept in a table of a SQLite database: the record, the checks on its
//! fields, and the four statements that create, change, remove and list rows.
//!
//! - [`usuario`] holds the record and its operations.
//! - [`date`] holds the date of birth and its ISO 8601 text.
//! - [`sql`] holds the statements: their SQL and the values bound to them.
//! - [`store`] holds the calls into the database connection.
//! - [`error`] holds the two error types.
//!
//! The connection is the caller's: it is opened and closed elsewhere, and the
//! table `pessoas` is expected to exist with the columns `id`, `nome`,
//! `data_nascimento` and `email`.

pub mod date;
pub mod error;
pub mod sql;
pub mod store;
pub mod usuario;

pub use date::Date;
pub use error::{StoreError, ValidationError};
pub use sql::{SqlValue, Statement};
pub use store::StoredRow;
pub use usuario::{decode_query, decode_rows, listar_pessoas, Pessoa};
